//! Address text the bootstrap path needs: the socket-upgrade URL the agent
//! derives from its own load origin, and the lines the server prints at
//! startup so an operator can embed the agent on a page.

use vstd::prelude::*;

use crate::text::dec_digits;
use crate::text::write_u64;

verus! {

/// The URL an agent connects to, derived from the scheme and host the
/// bootstrap script was loaded from: the HTTP-family scheme becomes its
/// socket-upgrade equivalent, and the upgrade path is fixed. Any other
/// scheme has no upgrade equivalent and yields nothing.
pub fn socket_url(scheme: &str, host: &str) -> (r: Option<String>)
    ensures
        (r is Some) <==> (scheme@ == "http:"@ || scheme@ == "https:"@),
        scheme@ == "http:"@ ==> (r matches Some(u) && u@ == "ws://"@ + host@ + "/ws/"@),
        scheme@ == "https:"@ ==> (r matches Some(u) && u@ == "wss://"@ + host@ + "/ws/"@),
{
    proof {
        reveal_strlit("http:");
        reveal_strlit("https:");
        assert("http:"@.len() == 5);
        assert("https:"@.len() == 6);
    }
    let owned: String = scheme.to_owned();
    let plain: String = String::from_str("http:");
    let secure: String = String::from_str("https:");
    if owned == plain {
        let mut url: String = String::from_str("ws://");
        url.append(host);
        url.append("/ws/");
        Some(url)
    } else if owned == secure {
        let mut url: String = String::from_str("wss://");
        url.append(host);
        url.append("/ws/");
        Some(url)
    } else {
        None
    }
}

/// The address one reachable interface gives the service, as printed at
/// startup.
pub fn service_url(host: &str, port: u16) -> (r: String)
    ensures
        r@ == "http://"@ + host@ + ":"@ + dec_digits(port as nat),
{
    let mut url: String = String::from_str("http://");
    url.append(host);
    url.append(":");
    write_u64(port as u64, &mut url);
    url
}

/// The literal script tag that embeds the agent on a page served from
/// anywhere, for the same interface and port.
pub fn embed_tag(host: &str, port: u16) -> (r: String)
    ensures
        r@ == "    <script src=\"http://"@ + host@ + ":"@ + dec_digits(port as nat)
            + "/log.js\"></script>"@,
{
    let mut tag: String = String::from_str("    <script src=\"http://");
    tag.append(host);
    tag.append(":");
    write_u64(port as u64, &mut tag);
    tag.append("/log.js\"></script>");
    tag
}

} // verus!
