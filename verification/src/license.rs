//! Creative Commons license recognition: the license URL stored on a
//! work is mapped to a closed set of license kinds, unknown URLs to
//! `Undefined`.

use vstd::prelude::*;

use crate::text::str_eq;

verus! {

/// The recognised license kinds of a work.
#[derive(Clone, Copy, Debug, PartialEq, Eq, Structural)]
pub enum License {
    By,
    BySa,
    ByNd,
    ByNc,
    ByNcSa,
    ByNcNd,
    Zero,
    Undefined,
}

/// Whether `s` is one of the recognised URLs of this license.
pub open spec fn is_by_url(s: Seq<char>) -> bool {
    ||| s == ("http://creativecommons.org/licenses/by/1.0/")@
    ||| s == ("http://creativecommons.org/licenses/by/2.0/")@
    ||| s == ("http://creativecommons.org/licenses/by/2.5/")@
    ||| s == ("http://creativecommons.org/licenses/by/3.0/")@
    ||| s == ("http://creativecommons.org/licenses/by/4.0/")@
    ||| s == ("https://creativecommons.org/licenses/by/1.0/")@
    ||| s == ("https://creativecommons.org/licenses/by/2.0/")@
    ||| s == ("https://creativecommons.org/licenses/by/2.5/")@
    ||| s == ("https://creativecommons.org/licenses/by/3.0/")@
    ||| s == ("https://creativecommons.org/licenses/by/4.0/")@
}
/// Whether `s` is one of the recognised URLs of this license.
pub open spec fn is_bysa_url(s: Seq<char>) -> bool {
    ||| s == ("http://creativecommons.org/licenses/by-sa/1.0/")@
    ||| s == ("http://creativecommons.org/licenses/by-sa/2.0/")@
    ||| s == ("http://creativecommons.org/licenses/by-sa/2.5/")@
    ||| s == ("http://creativecommons.org/licenses/by-sa/3.0/")@
    ||| s == ("http://creativecommons.org/licenses/by-sa/4.0/")@
    ||| s == ("https://creativecommons.org/licenses/by-sa/1.0/")@
    ||| s == ("https://creativecommons.org/licenses/by-sa/2.0/")@
    ||| s == ("https://creativecommons.org/licenses/by-sa/2.5/")@
    ||| s == ("https://creativecommons.org/licenses/by-sa/3.0/")@
    ||| s == ("https://creativecommons.org/licenses/by-sa/4.0/")@
}
/// Whether `s` is one of the recognised URLs of this license.
pub open spec fn is_bynd_url(s: Seq<char>) -> bool {
    ||| s == ("http://creativecommons.org/licenses/by-nd/1.0/")@
    ||| s == ("http://creativecommons.org/licenses/by-nd/2.0/")@
    ||| s == ("http://creativecommons.org/licenses/by-nd/2.5/")@
    ||| s == ("http://creativecommons.org/licenses/by-nd/3.0/")@
    ||| s == ("http://creativecommons.org/licenses/by-nd/4.0/")@
    ||| s == ("https://creativecommons.org/licenses/by-nd/1.0/")@
    ||| s == ("https://creativecommons.org/licenses/by-nd/2.0/")@
    ||| s == ("https://creativecommons.org/licenses/by-nd/2.5/")@
    ||| s == ("https://creativecommons.org/licenses/by-nd/3.0/")@
    ||| s == ("https://creativecommons.org/licenses/by-nd/4.0/")@
}
/// Whether `s` is one of the recognised URLs of this license.
pub open spec fn is_bync_url(s: Seq<char>) -> bool {
    ||| s == ("http://creativecommons.org/licenses/by-nc/1.0/")@
    ||| s == ("http://creativecommons.org/licenses/by-nc/2.0/")@
    ||| s == ("http://creativecommons.org/licenses/by-nc/2.5/")@
    ||| s == ("http://creativecommons.org/licenses/by-nc/3.0/")@
    ||| s == ("http://creativecommons.org/licenses/by-nc/4.0/")@
    ||| s == ("https://creativecommons.org/licenses/by-nc/1.0/")@
    ||| s == ("https://creativecommons.org/licenses/by-nc/2.0/")@
    ||| s == ("https://creativecommons.org/licenses/by-nc/2.5/")@
    ||| s == ("https://creativecommons.org/licenses/by-nc/3.0/")@
    ||| s == ("https://creativecommons.org/licenses/by-nc/4.0/")@
}
/// Whether `s` is one of the recognised URLs of this license.
pub open spec fn is_byncsa_url(s: Seq<char>) -> bool {
    ||| s == ("http://creativecommons.org/licenses/by-nc-sa/1.0/")@
    ||| s == ("http://creativecommons.org/licenses/by-nc-sa/2.0/")@
    ||| s == ("http://creativecommons.org/licenses/by-nc-sa/2.5/")@
    ||| s == ("http://creativecommons.org/licenses/by-nc-sa/3.0/")@
    ||| s == ("http://creativecommons.org/licenses/by-nc-sa/4.0/")@
    ||| s == ("https://creativecommons.org/licenses/by-nc-sa/1.0/")@
    ||| s == ("https://creativecommons.org/licenses/by-nc-sa/2.0/")@
    ||| s == ("https://creativecommons.org/licenses/by-nc-sa/2.5/")@
    ||| s == ("https://creativecommons.org/licenses/by-nc-sa/3.0/")@
    ||| s == ("https://creativecommons.org/licenses/by-nc-sa/4.0/")@
}
/// Whether `s` is one of the recognised URLs of this license.
pub open spec fn is_byncnd_url(s: Seq<char>) -> bool {
    ||| s == ("http://creativecommons.org/licenses/by-nc-nd/1.0/")@
    ||| s == ("http://creativecommons.org/licenses/by-nc-nd/2.0/")@
    ||| s == ("http://creativecommons.org/licenses/by-nc-nd/2.5/")@
    ||| s == ("http://creativecommons.org/licenses/by-nc-nd/3.0/")@
    ||| s == ("http://creativecommons.org/licenses/by-nc-nd/4.0/")@
    ||| s == ("https://creativecommons.org/licenses/by-nc-nd/1.0/")@
    ||| s == ("https://creativecommons.org/licenses/by-nc-nd/2.0/")@
    ||| s == ("https://creativecommons.org/licenses/by-nc-nd/2.5/")@
    ||| s == ("https://creativecommons.org/licenses/by-nc-nd/3.0/")@
    ||| s == ("https://creativecommons.org/licenses/by-nc-nd/4.0/")@
}
/// Whether `s` is one of the recognised URLs of this license.
pub open spec fn is_zero_url(s: Seq<char>) -> bool {
    ||| s == ("http://creativecommons.org/publicdomain/zero/1.0/")@
    ||| s == ("https://creativecommons.org/publicdomain/zero/1.0/")@
}

/// The license kind a URL denotes; `Undefined` for any other text.
pub open spec fn spec_license_of(s: Seq<char>) -> License {
    if is_by_url(s) {
        License::By
    } else if is_bysa_url(s) {
        License::BySa
    } else if is_bynd_url(s) {
        License::ByNd
    } else if is_bync_url(s) {
        License::ByNc
    } else if is_byncsa_url(s) {
        License::ByNcSa
    } else if is_byncnd_url(s) {
        License::ByNcNd
    } else if is_zero_url(s) {
        License::Zero
    } else {
        License::Undefined
    }
}

impl License {
    /// Recognises a license URL; any unrecognised text maps to
    /// `Undefined` rather than an error.
    pub fn from_url(input: &str) -> (r: License)
        ensures
            r == spec_license_of(input@),
    {
    if str_eq(input, "http://creativecommons.org/licenses/by/1.0/") || str_eq(input, "http://creativecommons.org/licenses/by/2.0/") || str_eq(input, "http://creativecommons.org/licenses/by/2.5/") || str_eq(input, "http://creativecommons.org/licenses/by/3.0/") || str_eq(input, "http://creativecommons.org/licenses/by/4.0/") || str_eq(input, "https://creativecommons.org/licenses/by/1.0/") || str_eq(input, "https://creativecommons.org/licenses/by/2.0/") || str_eq(input, "https://creativecommons.org/licenses/by/2.5/") || str_eq(input, "https://creativecommons.org/licenses/by/3.0/") || str_eq(input, "https://creativecommons.org/licenses/by/4.0/") {
        return License::By;
    }
    if str_eq(input, "http://creativecommons.org/licenses/by-sa/1.0/") || str_eq(input, "http://creativecommons.org/licenses/by-sa/2.0/") || str_eq(input, "http://creativecommons.org/licenses/by-sa/2.5/") || str_eq(input, "http://creativecommons.org/licenses/by-sa/3.0/") || str_eq(input, "http://creativecommons.org/licenses/by-sa/4.0/") || str_eq(input, "https://creativecommons.org/licenses/by-sa/1.0/") || str_eq(input, "https://creativecommons.org/licenses/by-sa/2.0/") || str_eq(input, "https://creativecommons.org/licenses/by-sa/2.5/") || str_eq(input, "https://creativecommons.org/licenses/by-sa/3.0/") || str_eq(input, "https://creativecommons.org/licenses/by-sa/4.0/") {
        return License::BySa;
    }
    if str_eq(input, "http://creativecommons.org/licenses/by-nd/1.0/") || str_eq(input, "http://creativecommons.org/licenses/by-nd/2.0/") || str_eq(input, "http://creativecommons.org/licenses/by-nd/2.5/") || str_eq(input, "http://creativecommons.org/licenses/by-nd/3.0/") || str_eq(input, "http://creativecommons.org/licenses/by-nd/4.0/") || str_eq(input, "https://creativecommons.org/licenses/by-nd/1.0/") || str_eq(input, "https://creativecommons.org/licenses/by-nd/2.0/") || str_eq(input, "https://creativecommons.org/licenses/by-nd/2.5/") || str_eq(input, "https://creativecommons.org/licenses/by-nd/3.0/") || str_eq(input, "https://creativecommons.org/licenses/by-nd/4.0/") {
        return License::ByNd;
    }
    if str_eq(input, "http://creativecommons.org/licenses/by-nc/1.0/") || str_eq(input, "http://creativecommons.org/licenses/by-nc/2.0/") || str_eq(input, "http://creativecommons.org/licenses/by-nc/2.5/") || str_eq(input, "http://creativecommons.org/licenses/by-nc/3.0/") || str_eq(input, "http://creativecommons.org/licenses/by-nc/4.0/") || str_eq(input, "https://creativecommons.org/licenses/by-nc/1.0/") || str_eq(input, "https://creativecommons.org/licenses/by-nc/2.0/") || str_eq(input, "https://creativecommons.org/licenses/by-nc/2.5/") || str_eq(input, "https://creativecommons.org/licenses/by-nc/3.0/") || str_eq(input, "https://creativecommons.org/licenses/by-nc/4.0/") {
        return License::ByNc;
    }
    if str_eq(input, "http://creativecommons.org/licenses/by-nc-sa/1.0/") || str_eq(input, "http://creativecommons.org/licenses/by-nc-sa/2.0/") || str_eq(input, "http://creativecommons.org/licenses/by-nc-sa/2.5/") || str_eq(input, "http://creativecommons.org/licenses/by-nc-sa/3.0/") || str_eq(input, "http://creativecommons.org/licenses/by-nc-sa/4.0/") || str_eq(input, "https://creativecommons.org/licenses/by-nc-sa/1.0/") || str_eq(input, "https://creativecommons.org/licenses/by-nc-sa/2.0/") || str_eq(input, "https://creativecommons.org/licenses/by-nc-sa/2.5/") || str_eq(input, "https://creativecommons.org/licenses/by-nc-sa/3.0/") || str_eq(input, "https://creativecommons.org/licenses/by-nc-sa/4.0/") {
        return License::ByNcSa;
    }
    if str_eq(input, "http://creativecommons.org/licenses/by-nc-nd/1.0/") || str_eq(input, "http://creativecommons.org/licenses/by-nc-nd/2.0/") || str_eq(input, "http://creativecommons.org/licenses/by-nc-nd/2.5/") || str_eq(input, "http://creativecommons.org/licenses/by-nc-nd/3.0/") || str_eq(input, "http://creativecommons.org/licenses/by-nc-nd/4.0/") || str_eq(input, "https://creativecommons.org/licenses/by-nc-nd/1.0/") || str_eq(input, "https://creativecommons.org/licenses/by-nc-nd/2.0/") || str_eq(input, "https://creativecommons.org/licenses/by-nc-nd/2.5/") || str_eq(input, "https://creativecommons.org/licenses/by-nc-nd/3.0/") || str_eq(input, "https://creativecommons.org/licenses/by-nc-nd/4.0/") {
        return License::ByNcNd;
    }
    if str_eq(input, "http://creativecommons.org/publicdomain/zero/1.0/") || str_eq(input, "https://creativecommons.org/publicdomain/zero/1.0/") {
        return License::Zero;
    }
        License::Undefined
    }
}

impl core::str::FromStr for License {
    type Err = core::convert::Infallible;

    /// Recognition never fails: unrecognised text is `Undefined`.
    fn from_str(input: &str) -> (r: Result<License, core::convert::Infallible>)
        ensures
            r matches Ok(l) && l == spec_license_of(input@),
    {
        Ok(License::from_url(input))
    }
}

} // verus!
