//! Setting a light up by hand through its own web page, when the
//! automatic ways fail.
use crate::text::push_str;
use vstd::prelude::*;

verus! {

/// Provisioning through the device's web interface.
#[derive(Debug, Clone, Copy)]
pub struct ElgatoWebProvisioner;

/// The address of a device's web interface.
pub open spec fn web_interface_url_of(device_ip: Seq<char>) -> Seq<char> {
    "http://"@ + device_ip + ":9123"@
}

impl ElgatoWebProvisioner {
    pub fn new() -> (p: Self) {
        ElgatoWebProvisioner
    }

    /// The address of the device's web interface: port 9123 at its IP.
    pub fn web_interface_url(&self, device_ip: &str) -> (url: String)
        ensures
            url@ == web_interface_url_of(device_ip@),
    {
        let mut url = String::new();
        push_str(&mut url, "http://");
        push_str(&mut url, device_ip);
        push_str(&mut url, ":9123");
        url
    }

    /// The programs tried, in order, to open a browser on the web
    /// interface.
    pub fn browser_commands(&self) -> (r: Vec<&'static str>)
        ensures
            r@.len() == 5,
            r@[0]@ == "xdg-open"@,
            r@[1]@ == "open"@,
            r@[2]@ == "firefox"@,
            r@[3]@ == "chromium"@,
            r@[4]@ == "google-chrome"@,
    {
        let mut r: Vec<&'static str> = Vec::new();
        r.push("xdg-open");
        r.push("open");
        r.push("firefox");
        r.push("chromium");
        r.push("google-chrome");
        r
    }
}

/// Whether an HTTP status from the web interface shows it is there: any
/// success, or 401 (it asks for a login).
pub fn web_interface_reachable(status: u16) -> (r: bool)
    ensures
        r == ((200 <= status <= 299) || status == 401),
{
    (200 <= status && status <= 299) || status == 401
}

} // verus!
