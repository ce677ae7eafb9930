//! The thing to open: a URL, or a local file as a `file` URL.

use crate::error::invalid_input;
use crate::error::not_found;
use crate::error::Error;
use crate::error::ErrorKind;
use crate::host::Environment;
use crate::host::Model;
use crate::host::Platform;
use crate::text::concat;
use crate::text::copy;
use crate::text::is;
use crate::text::join;
use crate::text::joined;
use crate::text::lit;
use crate::text::BACKSLASH;
use crate::text::COLON;
use crate::text::SLASH;
use crate::wsl::absolute;
use vstd::prelude::*;
use vstd::string::StringSliceAdditionalSpecFns;

verus! {

/// A parsed URL, held as the parts that decisions are made on.
#[derive(Clone, Debug, PartialEq, Eq)]
pub struct Target {
    /// The URL, written out.
    pub url: Vec<u8>,
    /// Its scheme, in lower case and without the colon.
    pub scheme: Vec<u8>,
    /// Whether it names a host.
    pub has_host: bool,
    /// Its path, as it stands in the URL.
    pub path: Vec<u8>,
    /// For a `file` URL, the path of the file on this machine, where there
    /// is one.
    pub file_path: Option<Vec<u8>>,
}

/// The URL that `url::Url::parse` reads out of `input`, written out again
/// (`Url::as_str`); `None` where it reads none.
pub uninterp spec fn url_text(input: Seq<char>) -> Option<Seq<u8>>;

/// The scheme (`Url::scheme`) of the URL that `url::Url::parse` reads out of
/// `input`.
pub uninterp spec fn url_scheme(input: Seq<char>) -> Seq<u8>;

/// Whether the URL that `url::Url::parse` reads out of `input` names a host
/// (`Url::has_host`).
pub uninterp spec fn url_has_host(input: Seq<char>) -> bool;

/// The path (`Url::path`) of the URL that `url::Url::parse` reads out of
/// `input`.
pub uninterp spec fn url_path(input: Seq<char>) -> Seq<u8>;

/// `url::Url::parse`, with the parts of the URL taken out by `Url::as_str`,
/// `Url::scheme`, `Url::has_host`, `Url::path` and `Url::to_file_path`.
///
/// Parsing depends on the input alone, so the parts are named after it:
/// there is a result exactly where `url_text` has one, and its text,
/// scheme, host flag and path are the named ones. Nothing is claimed of the
/// file path, which depends on the platform.
#[verifier::external_body]
fn parse_url(input: &str) -> (r: Option<Target>)
    ensures
        r is Some <==> url_text(input@) is Some,
        r is Some ==> url_text(input@) == Some(r->0.url@),
        r is Some ==> r->0.scheme@ == url_scheme(input@),
        r is Some ==> r->0.has_host == url_has_host(input@),
        r is Some ==> r->0.path@ == url_path(input@),
{
    match url::Url::parse(input) {
        Ok(u) => Some(
            Target {
                url: u.as_str().as_bytes().to_vec(),
                scheme: u.scheme().as_bytes().to_vec(),
                has_host: u.has_host(),
                path: u.path().as_bytes().to_vec(),
                file_path: u.to_file_path().ok().map(|p| p.into_os_string().into_encoded_bytes()),
            },
        ),
        Err(_) => None,
    }
}

/// `url::Url::from_file_path`, with the parts of the URL taken out as in
/// `parse_url`.
///
/// What comes back depends on the platform's notion of a path. All that is
/// claimed is what the function is documented to give: a URL of the scheme
/// `file`.
#[verifier::external_body]
fn file_url(path: &[u8]) -> (r: Option<Target>)
    ensures
        r is Some ==> r->0.scheme@ == lit("file"),
{
    let text = core::str::from_utf8(path).ok()?;
    let u = url::Url::from_file_path(text).ok()?;
    Some(
        Target {
            url: u.as_str().as_bytes().to_vec(),
            scheme: u.scheme().as_bytes().to_vec(),
            has_host: u.has_host(),
            path: u.path().as_bytes().to_vec(),
            file_path: u.to_file_path().ok().map(|p| p.into_os_string().into_encoded_bytes()),
        },
    )
}

/// Whether a path stands for itself, wherever the process is.
///
/// On Windows that takes a drive letter, a colon and a slash of either
/// kind, or two backslashes; elsewhere a slash at the front.
pub open spec fn rooted(platform: Platform, path: Seq<u8>) -> bool {
    if platform == Platform::Windows {
        ||| path.len() >= 3 && is_letter(path[0]) && path[1] == COLON && (path[2] == BACKSLASH
            || path[2] == SLASH)
        ||| path.len() >= 2 && path[0] == BACKSLASH && path[1] == BACKSLASH
    } else {
        absolute(path)
    }
}

/// An ASCII letter.
pub open spec fn is_letter(b: u8) -> bool {
    0x41 <= b <= 0x5a || 0x61 <= b <= 0x7a
}

/// `path` under the directory `dir`.
pub open spec fn under_dir(platform: Platform, dir: Seq<u8>, path: Seq<u8>) -> Seq<u8> {
    if platform == Platform::Windows {
        if dir.len() == 0 || dir.last() == BACKSLASH || dir.last() == SLASH {
            dir + path
        } else {
            dir + seq![BACKSLASH] + path
        }
    } else {
        joined(dir, path)
    }
}

/// The failure of a relative path where the working directory is unknown.
pub open spec fn no_current_dir() -> Error {
    not_found("current directory unknown")
}

/// The path of the file that `value` names: `value` itself if it is rooted,
/// else `value` under the working directory.
pub open spec fn file_to_open(value: Seq<u8>, env: &Environment) -> Result<Seq<u8>, Error> {
    if rooted(env.platform, value) {
        Ok(value)
    } else {
        match env.current_dir {
            None => Err(no_current_dir()),
            Some(dir) => Ok(under_dir(env.platform, dir@, value)),
        }
    }
}

/// The path of the file that `value` names.
pub fn path_to_open(value: &[u8], env: &Environment) -> (r: Result<Vec<u8>, Error>)
    ensures
        r.model() == file_to_open(value@, env),
{
    let windows = env.platform == Platform::Windows;
    let is_rooted = if windows {
        (value.len() >= 3 && ((0x41 <= value[0] && value[0] <= 0x5a) || (0x61 <= value[0]
            && value[0] <= 0x7a)) && value[1] == COLON && (value[2] == BACKSLASH || value[2]
            == SLASH)) || (value.len() >= 2 && value[0] == BACKSLASH && value[1] == BACKSLASH)
    } else {
        value.len() > 0 && value[0] == SLASH
    };
    if is_rooted {
        return Ok(copy(value));
    }
    match &env.current_dir {
        None => Err(Error::new(ErrorKind::NotFound, "current directory unknown")),
        Some(dir) => {
            if windows {
                let n = dir.len();
                assert(n > 0 ==> dir@.last() == dir@[n - 1]);
                if n == 0 || dir[n - 1] == BACKSLASH || dir[n - 1] == SLASH {
                    Ok(concat(dir.as_slice(), value))
                } else {
                    let mut out = copy(dir.as_slice());
                    out.push(BACKSLASH);
                    out.extend_from_slice(value);
                    assert(out@ == dir@ + seq![BACKSLASH] + value@);
                    Ok(out)
                }
            } else {
                Ok(join(dir.as_slice(), value))
            }
        },
    }
}

/// Whether `value` is taken as a URL: it parses as one, and is not a
/// Windows path whose drive letter reads like a scheme.
pub open spec fn taken_as_url(value: Seq<char>, env: &Environment) -> bool {
    url_text(value) is Some && !(env.platform == Platform::Windows && url_scheme(value).len() == 1)
}

/// What reading `value` as a target may come to.
///
/// A value that is taken as a URL gives that URL. Any other value is an
/// error in a script runtime, and elsewhere names a file: the result is
/// then a `file` URL, or the failure to make one.
pub open spec fn resolution(value: &str, env: &Environment, r: Result<Target, Error>) -> bool {
    if taken_as_url(value@, env) {
        r is Ok && r->Ok_0.parsed_from(value@)
    } else if env.platform == Platform::Wasm {
        r is Err && r->Err_0 == invalid_input("invalid url for wasm")
    } else {
        match file_to_open(value.spec_bytes(), env) {
            Err(e) => r is Err && r->Err_0 == e,
            Ok(_) => match r {
                Ok(t) => t.scheme@ == lit("file"),
                Err(e) => e == invalid_input("failed to convert path to url"),
            },
        }
    }
}

impl Target {
    /// Whether the parts are those of the URL read out of `input`.
    pub open spec fn parsed_from(&self, input: Seq<char>) -> bool {
        &&& url_text(input) == Some(self.url@)
        &&& self.scheme@ == url_scheme(input)
        &&& self.has_host == url_has_host(input)
        &&& self.path@ == url_path(input)
    }

    /// Whether the scheme is `http` or `https`.
    pub open spec fn web(&self) -> bool {
        self.scheme@ == lit("http") || self.scheme@ == lit("https")
    }

    /// Returns true if this target represents an HTTP url, false otherwise.
    pub fn is_http(&self) -> (r: bool)
        ensures
            r == self.web(),
    {
        is(self.scheme.as_slice(), "http") || is(self.scheme.as_slice(), "https")
    }

    /// If the target is a http/https url, its text; else a failure of class
    /// `InvalidInput`.
    pub fn get_http_url(&self) -> (r: Result<Vec<u8>, Error>)
        ensures
            r.model() == (if self.web() {
                Ok::<Seq<u8>, Error>(self.url@)
            } else {
                Err::<Seq<u8>, Error>(invalid_input("not an http url"))
            }),
    {
        if self.is_http() {
            Ok(copy(self.url.as_slice()))
        } else {
            Err(Error::new(ErrorKind::InvalidInput, "not an http url"))
        }
    }

    /// The `file` URL of the file that `value` names.
    pub fn from_file_path(value: &str, env: &Environment) -> (r: Result<Target, Error>)
        ensures
            match file_to_open(value.spec_bytes(), env) {
                Err(e) => r is Err && r->Err_0 == e,
                Ok(_) => match r {
                    Ok(t) => t.scheme@ == lit("file"),
                    Err(e) => e == invalid_input("failed to convert path to url"),
                },
            },
    {
        match path_to_open(value.as_bytes(), env) {
            Err(e) => Err(e),
            Ok(path) => match file_url(path.as_slice()) {
                Some(t) => Ok(t),
                None => Err(Error::new(ErrorKind::InvalidInput, "failed to convert path to url")),
            },
        }
    }

    /// Reads `value` as a URL, or else as the path of a local file.
    pub fn try_from(value: &str, env: &Environment) -> (r: Result<Target, Error>)
        ensures
            resolution(value, env, r),
    {
        match parse_url(value) {
            Some(t) => {
                if env.platform == Platform::Windows && t.scheme.len() == 1 {
                    Target::from_file_path(value, env)
                } else {
                    Ok(t)
                }
            },
            None => {
                if env.platform == Platform::Wasm {
                    Err(Error::new(ErrorKind::InvalidInput, "invalid url for wasm"))
                } else {
                    Target::from_file_path(value, env)
                }
            },
        }
    }
}

} // verus!
