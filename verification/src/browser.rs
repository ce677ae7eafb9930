//! The browsers that can be asked for by name.

use vstd::prelude::*;
use vstd::string::StringExecFns;
use vstd::utf8::encode_utf8_decode_utf8;

verus! {

/// Browser types available.
#[derive(Clone, Copy, Debug, PartialEq, Eq, Hash, Structural)]
pub enum Browser {
    /// Operating system's default browser
    Default,
    /// Mozilla Firefox
    Firefox,
    /// Microsoft's Internet Explorer
    InternetExplorer,
    /// Google Chrome
    Chrome,
    /// Opera
    Opera,
    /// Mac OS Safari
    Safari,
    /// Haiku's WebPositive
    WebPositive,
}

/// The error for a string that names no browser.
#[derive(Clone, Copy, Debug, PartialEq, Eq, Hash, Structural)]
pub struct ParseBrowserError;

/// Whether two strings hold the same characters.
pub fn str_eq(a: &str, b: &str) -> (r: bool)
    ensures
        r == (a@ == b@),
{
    proof {
        encode_utf8_decode_utf8(a@);
        encode_utf8_decode_utf8(b@);
    }
    crate::text::same(a.as_bytes(), b.as_bytes())
}

impl ParseBrowserError {
    /// What a user is told.
    pub fn to_string(&self) -> (r: String)
        ensures
            r@ == "Invalid browser given"@,
    {
        String::from_str("Invalid browser given")
    }

    /// A short description.
    pub fn description(&self) -> (r: &'static str)
        ensures
            r@ == "invalid browser"@,
    {
        "invalid browser"
    }
}

impl Default for Browser {
    fn default() -> (r: Browser)
        ensures
            r == Browser::Default,
    {
        Browser::Default
    }
}

impl Browser {
    /// The browser that the lower-case name `s` stands for.
    pub open spec fn named(s: Seq<char>) -> Option<Browser> {
        if s == "firefox"@ {
            Some(Browser::Firefox)
        } else if s == "default"@ {
            Some(Browser::Default)
        } else if s == "ie"@ || s == "internet explorer"@ || s == "internetexplorer"@ {
            Some(Browser::InternetExplorer)
        } else if s == "chrome"@ {
            Some(Browser::Chrome)
        } else if s == "opera"@ {
            Some(Browser::Opera)
        } else if s == "safari"@ {
            Some(Browser::Safari)
        } else if s == "webpositive"@ {
            Some(Browser::WebPositive)
        } else {
            None
        }
    }

    /// The name under which this browser is shown.
    pub open spec fn label(self) -> Seq<char> {
        match self {
            Browser::Default => "Default"@,
            Browser::Firefox => "Firefox"@,
            Browser::InternetExplorer => "Internet Explorer"@,
            Browser::Chrome => "Chrome"@,
            Browser::Opera => "Opera"@,
            Browser::Safari => "Safari"@,
            Browser::WebPositive => "WebPositive"@,
        }
    }

    /// Reads a browser's name.
    pub fn parse(s: &str) -> (r: Result<Browser, ParseBrowserError>)
        ensures
            r == match Browser::named(s@) {
                Some(b) => Ok::<Browser, ParseBrowserError>(b),
                None => Err::<Browser, ParseBrowserError>(ParseBrowserError),
            },
    {
        if str_eq(s, "firefox") {
            Ok(Browser::Firefox)
        } else if str_eq(s, "default") {
            Ok(Browser::Default)
        } else if str_eq(s, "ie") || str_eq(s, "internet explorer") || str_eq(
            s,
            "internetexplorer",
        ) {
            Ok(Browser::InternetExplorer)
        } else if str_eq(s, "chrome") {
            Ok(Browser::Chrome)
        } else if str_eq(s, "opera") {
            Ok(Browser::Opera)
        } else if str_eq(s, "safari") {
            Ok(Browser::Safari)
        } else if str_eq(s, "webpositive") {
            Ok(Browser::WebPositive)
        } else {
            Err(ParseBrowserError)
        }
    }

    /// The name under which this browser is shown.
    pub fn to_string(&self) -> (r: String)
        ensures
            r@ == self.label(),
    {
        match self {
            Browser::Default => String::from_str("Default"),
            Browser::Firefox => String::from_str("Firefox"),
            Browser::InternetExplorer => String::from_str("Internet Explorer"),
            Browser::Chrome => String::from_str("Chrome"),
            Browser::Opera => String::from_str("Opera"),
            Browser::Safari => String::from_str("Safari"),
            Browser::WebPositive => String::from_str("WebPositive"),
        }
    }
}

impl std::str::FromStr for Browser {
    type Err = ParseBrowserError;

    fn from_str(s: &str) -> (r: Result<Browser, ParseBrowserError>)
        ensures
            r == match Browser::named(s@) {
                Some(b) => Ok::<Browser, ParseBrowserError>(b),
                None => Err::<Browser, ParseBrowserError>(ParseBrowserError),
            },
    {
        Browser::parse(s)
    }
}

} // verus!
