//! Where a fetch is sent: host, port and resource path.
use vstd::prelude::*;
use vstd::string::*;

verus! {

/// The decimal digits of `n`, most significant first, without leading zeros.
pub open spec fn decimal(n: nat) -> Seq<char>
    decreases n,
{
    if n < 10 {
        seq!["0123456789"@[n as int]]
    } else {
        decimal(n / 10) + seq!["0123456789"@[(n % 10) as int]]
    }
}

/// The `http` URL of the resource `path` on `host` at `port`.
pub open spec fn url_text(host: Seq<char>, port: u16, path: Seq<char>) -> Seq<char> {
    "http://"@ + host + ":"@ + decimal(port as nat) + path
}

/// The address of the resource that a fetch requests.
#[derive(Debug, Clone)]
pub struct FetchConfig {
    pub host: String,
    pub port: u16,
    /// The resource path, starting with `/`.
    pub path: String,
}

/// Appends the decimal digits of `n` to `s`.
fn append_decimal(s: &mut String, n: u16)
    ensures
        final(s)@ == old(s)@ + decimal(n as nat),
    decreases n,
{
    if n >= 10 {
        append_decimal(s, n / 10);
    }
    let digits = "0123456789";
    proof {
        reveal_strlit("0123456789");
    }
    let d: usize = (n % 10) as usize;
    let one = digits.substring_char(d, d + 1);
    s.append(one);
    assert(one@ =~= seq!["0123456789"@[d as int]]);
    assert(s@ =~= old(s)@ + decimal(n as nat));
}

impl FetchConfig {
    /// The address of `path` on `host` at `port`.
    pub fn new(host: String, port: u16, path: String) -> (r: FetchConfig)
        ensures
            r.host@ == host@,
            r.port == port,
            r.path@ == path@,
    {
        FetchConfig { host, port, path }
    }

    /// The URL to request: `http://<host>:<port><path>`.
    pub fn url(&self) -> (r: String)
        ensures
            r@ == url_text(self.host@, self.port, self.path@),
    {
        let mut r = String::from_str("http://");
        r.append(self.host.as_str());
        r.append(":");
        append_decimal(&mut r, self.port);
        r.append(self.path.as_str());
        r
    }
}

impl Default for FetchConfig {
    /// Item 1 on the local server: `http://localhost:3000/items/1`.
    fn default() -> (r: FetchConfig)
        ensures
            r.host@ == "localhost"@,
            r.port == 3000,
            r.path@ == "/items/1"@,
    {
        FetchConfig::new(String::from_str("localhost"), 3000, String::from_str("/items/1"))
    }
}

} // verus!
