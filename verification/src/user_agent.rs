//! Browser user-agent strings for web scraping.
//!
//! A fixed pool of realistic user agents spanning desktop and mobile
//! browsers; a random pick per request reduces trivial bot blocking.

use vstd::prelude::*;
use vstd::string::StringExecFns;

use crate::outside::random_below;

verus! {

/// Represents different browser user agent strings for web scraping.
#[derive(Debug, Clone, Copy)]
pub enum UserAgent {
    /// Google Chrome browser on Windows 10/11
    WindowsChrome,
    /// Mozilla Firefox browser on Windows 10/11
    WindowsFirefox,
    /// Microsoft Edge browser on Windows 10/11
    WindowsEdge,
    /// Google Chrome browser on macOS
    MacOSChrome,
    /// Safari browser on macOS
    MacOSSafari,
    /// Mozilla Firefox browser on macOS
    MacOSFirefox,
    /// Google Chrome browser on Linux
    LinuxChrome,
    /// Mozilla Firefox browser on Linux
    LinuxFirefox,
    /// Google Chrome browser on Android devices
    AndroidChrome,
    /// Mozilla Firefox browser on Android devices
    AndroidFirefox,
    /// Safari browser on iOS devices (iPhone/iPad)
    IOSSafari,
    /// Google Chrome browser on iOS devices (iPhone/iPad)
    IOSChrome,
}

impl UserAgent {
    /// The user-agent string of each variant.
    pub open spec fn agent_spec(self) -> Seq<char> {
        match self {
            UserAgent::WindowsChrome => "Mozilla/5.0 (Windows NT 10.0; Win64; x64) AppleWebKit/537.36 (KHTML, like Gecko) Chrome/120.0.0.0 Safari/537.36"@,
            UserAgent::WindowsFirefox => "Mozilla/5.0 (Windows NT 10.0; Win64; x64; rv:121.0) Gecko/20100101 Firefox/121.0"@,
            UserAgent::WindowsEdge => "Mozilla/5.0 (Windows NT 10.0; Win64; x64) AppleWebKit/537.36 (KHTML, like Gecko) Chrome/120.0.0.0 Safari/537.36 Edg/120.0.0.0"@,
            UserAgent::MacOSChrome => "Mozilla/5.0 (Macintosh; Intel Mac OS X 10_15_7) AppleWebKit/537.36 (KHTML, like Gecko) Chrome/120.0.0.0 Safari/537.36"@,
            UserAgent::MacOSSafari => "Mozilla/5.0 (Macintosh; Intel Mac OS X 10_15_7) AppleWebKit/605.1.15 (KHTML, like Gecko) Version/17.1 Safari/605.1.15"@,
            UserAgent::MacOSFirefox => "Mozilla/5.0 (Macintosh; Intel Mac OS X 10.15; rv:121.0) Gecko/20100101 Firefox/121.0"@,
            UserAgent::LinuxChrome => "Mozilla/5.0 (X11; Linux x86_64) AppleWebKit/537.36 (KHTML, like Gecko) Chrome/120.0.0.0 Safari/537.36"@,
            UserAgent::LinuxFirefox => "Mozilla/5.0 (X11; Linux x86_64; rv:121.0) Gecko/20100101 Firefox/121.0"@,
            UserAgent::AndroidChrome => "Mozilla/5.0 (Linux; Android 14; SM-G991B) AppleWebKit/537.36 (KHTML, like Gecko) Chrome/120.0.0.0 Mobile Safari/537.36"@,
            UserAgent::AndroidFirefox => "Mozilla/5.0 (Mobile; rv:121.0) Gecko/121.0 Firefox/121.0"@,
            UserAgent::IOSSafari => "Mozilla/5.0 (iPhone; CPU iPhone OS 17_1 like Mac OS X) AppleWebKit/605.1.15 (KHTML, like Gecko) Version/17.1 Mobile/15E148 Safari/604.1"@,
            UserAgent::IOSChrome => "Mozilla/5.0 (iPhone; CPU iPhone OS 17_1 like Mac OS X) AppleWebKit/605.1.15 (KHTML, like Gecko) CriOS/120.0.0.0 Mobile/15E148 Safari/604.1"@,
        }
    }

    /// The complete user-agent string of this variant, for HTTP headers.
    pub fn to_string(&self) -> (r: String)
        ensures
            r@ == self.agent_spec(),
    {
        match self {
            UserAgent::WindowsChrome => String::from_str(
                "Mozilla/5.0 (Windows NT 10.0; Win64; x64) AppleWebKit/537.36 (KHTML, like Gecko) Chrome/120.0.0.0 Safari/537.36",
            ),
            UserAgent::WindowsFirefox => String::from_str(
                "Mozilla/5.0 (Windows NT 10.0; Win64; x64; rv:121.0) Gecko/20100101 Firefox/121.0",
            ),
            UserAgent::WindowsEdge => String::from_str(
                "Mozilla/5.0 (Windows NT 10.0; Win64; x64) AppleWebKit/537.36 (KHTML, like Gecko) Chrome/120.0.0.0 Safari/537.36 Edg/120.0.0.0",
            ),
            UserAgent::MacOSChrome => String::from_str(
                "Mozilla/5.0 (Macintosh; Intel Mac OS X 10_15_7) AppleWebKit/537.36 (KHTML, like Gecko) Chrome/120.0.0.0 Safari/537.36",
            ),
            UserAgent::MacOSSafari => String::from_str(
                "Mozilla/5.0 (Macintosh; Intel Mac OS X 10_15_7) AppleWebKit/605.1.15 (KHTML, like Gecko) Version/17.1 Safari/605.1.15",
            ),
            UserAgent::MacOSFirefox => String::from_str(
                "Mozilla/5.0 (Macintosh; Intel Mac OS X 10.15; rv:121.0) Gecko/20100101 Firefox/121.0",
            ),
            UserAgent::LinuxChrome => String::from_str(
                "Mozilla/5.0 (X11; Linux x86_64) AppleWebKit/537.36 (KHTML, like Gecko) Chrome/120.0.0.0 Safari/537.36",
            ),
            UserAgent::LinuxFirefox => String::from_str(
                "Mozilla/5.0 (X11; Linux x86_64; rv:121.0) Gecko/20100101 Firefox/121.0",
            ),
            UserAgent::AndroidChrome => String::from_str(
                "Mozilla/5.0 (Linux; Android 14; SM-G991B) AppleWebKit/537.36 (KHTML, like Gecko) Chrome/120.0.0.0 Mobile Safari/537.36",
            ),
            UserAgent::AndroidFirefox => String::from_str(
                "Mozilla/5.0 (Mobile; rv:121.0) Gecko/121.0 Firefox/121.0",
            ),
            UserAgent::IOSSafari => String::from_str(
                "Mozilla/5.0 (iPhone; CPU iPhone OS 17_1 like Mac OS X) AppleWebKit/605.1.15 (KHTML, like Gecko) Version/17.1 Mobile/15E148 Safari/604.1",
            ),
            UserAgent::IOSChrome => String::from_str(
                "Mozilla/5.0 (iPhone; CPU iPhone OS 17_1 like Mac OS X) AppleWebKit/605.1.15 (KHTML, like Gecko) CriOS/120.0.0.0 Mobile/15E148 Safari/604.1",
            ),
        }
    }

    /// The variant at a given position in the fixed pool, in declaration
    /// order.
    pub fn from_index(i: usize) -> (r: UserAgent)
        requires
            i < 12,
        ensures
            r == Self::index_spec(i as int),
    {
        match i {
            0 => UserAgent::WindowsChrome,
            1 => UserAgent::WindowsFirefox,
            2 => UserAgent::WindowsEdge,
            3 => UserAgent::MacOSChrome,
            4 => UserAgent::MacOSSafari,
            5 => UserAgent::MacOSFirefox,
            6 => UserAgent::LinuxChrome,
            7 => UserAgent::LinuxFirefox,
            8 => UserAgent::AndroidChrome,
            9 => UserAgent::AndroidFirefox,
            10 => UserAgent::IOSSafari,
            _ => UserAgent::IOSChrome,
        }
    }

    /// The fixed pool, by position.
    pub open spec fn index_spec(i: int) -> UserAgent {
        if i == 0 {
            UserAgent::WindowsChrome
        } else if i == 1 {
            UserAgent::WindowsFirefox
        } else if i == 2 {
            UserAgent::WindowsEdge
        } else if i == 3 {
            UserAgent::MacOSChrome
        } else if i == 4 {
            UserAgent::MacOSSafari
        } else if i == 5 {
            UserAgent::MacOSFirefox
        } else if i == 6 {
            UserAgent::LinuxChrome
        } else if i == 7 {
            UserAgent::LinuxFirefox
        } else if i == 8 {
            UserAgent::AndroidChrome
        } else if i == 9 {
            UserAgent::AndroidFirefox
        } else if i == 10 {
            UserAgent::IOSSafari
        } else {
            UserAgent::IOSChrome
        }
    }

    /// A random user agent from the pool, for scraping diversity.  Which
    /// one comes back is not specified.
    pub fn random() -> (r: UserAgent) {
        let i = random_below(12);
        Self::from_index(i)
    }
}

} // verus!
