//! The cache of pages: where the archive comes from, and for which platform
//! pages are looked up.

use crate::types::OsType;
use vstd::prelude::*;

verus! {

/// A cache that is filled from one archive and read for one platform.
#[derive(Debug)]
pub struct Cache {
    url: String,
    os: OsType,
}

/// What a [`Cache`] was made with.
pub struct CacheView {
    pub url: Seq<char>,
    pub os: OsType,
}

impl View for Cache {
    type V = CacheView;

    closed spec fn view(&self) -> CacheView {
        CacheView { url: self.url@, os: self.os }
    }
}

impl Cache {
    /// A cache that updates itself from the archive at `url` and looks pages
    /// up for the platform `os`.
    pub fn new(url: &str, os: OsType) -> (cache: Self)
        ensures
            cache@.url == url@,
            cache@.os == os,
    {
        Self { url: url.to_owned(), os }
    }

    /// The address of the archive.
    pub fn url(&self) -> (url: &str)
        ensures
            url@ == self@.url,
    {
        self.url.as_str()
    }

    /// The platform that pages are looked up for.
    pub fn os(&self) -> (os: OsType)
        ensures
            os == self@.os,
    {
        self.os
    }

    /// The directory of the page tree that holds the platform's own pages,
    /// if the platform has one.
    pub fn get_platform_dir(&self) -> (dir: Option<&'static str>)
        ensures
            dir is Some == self@.os.dir_name() is Some,
            dir is Some ==> Some(dir->0@) == self@.os.dir_name(),
    {
        match self.os {
            OsType::Linux => Some("linux"),
            OsType::OsX => Some("osx"),
            OsType::SunOs => None,
            OsType::Windows => Some("windows"),
            OsType::Other => None,
        }
    }
}

} // verus!
