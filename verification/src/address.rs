//! The addresses from which images may be loaded.
use vstd::prelude::*;
use vstd::utf8::encode_utf8;

use crate::text::{begins_with, concat2, ends_with, occurs_at, same_text};

verus! {

/// The parts of an address that decide whether it is loaded, the text of the
/// whole address, and the number of bytes of its path.
#[derive(Debug, PartialEq, Eq)]
pub struct AddressParts {
    pub scheme: String,
    pub host: Option<String>,
    pub username: String,
    pub has_password: bool,
    pub text: String,
    pub path_length: usize,
}

/// The mathematical form of the parts of an address.
pub struct AddressView {
    pub scheme: Seq<char>,
    pub host: Option<Seq<char>>,
    pub username: Seq<char>,
    pub has_password: bool,
    pub text: Seq<char>,
    pub path_length: nat,
}

impl View for AddressParts {
    type V = AddressView;

    open spec fn view(&self) -> AddressView {
        AddressView {
            scheme: self.scheme@,
            host: match self.host {
                Some(host) => Some(host@),
                None => None,
            },
            username: self.username@,
            has_password: self.has_password,
            text: self.text@,
            path_length: self.path_length as nat,
        }
    }
}

/// The parts that `Url::parse` finds in a text, if the text is an address.
pub uninterp spec fn parsed_address(text: Seq<char>) -> Option<AddressView>;

/// The address that `Url::set_scheme` makes of the address in a text, if the
/// text is an address that can have the scheme.
pub uninterp spec fn rescheme(text: Seq<char>, scheme: Seq<char>) -> Option<Seq<char>>;

/// `Url::parse` of the url crate, with the scheme, the host, the user name,
/// whether there is a password, the address as the crate writes it, and the
/// length of its path. It is trusted to find the same parts in the same text;
/// the kind of its error is dropped.
#[verifier::external_body]
fn parse_address(text: &str) -> (r: Option<AddressParts>)
    ensures
        match r {
            Some(parts) => parsed_address(text@) == Some(parts@),
            None => parsed_address(text@) is None,
        },
{
    let url = reqwest::Url::parse(text).ok()?;
    Some(AddressParts {
        scheme: url.scheme().to_owned(),
        host: url.host_str().map(str::to_owned),
        username: url.username().to_owned(),
        has_password: url.password().is_some(),
        text: url.as_str().to_owned(),
        path_length: url.path().len(),
    })
}

/// `Url::set_scheme` of the url crate on a parsed text, and the text of the
/// address that it leaves, for an address that an image may be loaded from and
/// the scheme `https`. The crate keeps the places of the parts in 32 bits, and
/// panics where the last of them no longer fits. It is trusted to give the same
/// address for the same text and scheme, to put the new scheme in front and to
/// leave the host, the path and the missing credentials as they are, so that
/// the crate reads the address that it wrote as the same address.
#[verifier::external_body]
fn with_scheme(text: &str, scheme: &str) -> (r: Option<String>)
    requires
        scheme@ == "https"@,
        parsed_address(text@) is Some,
        is_image_source(parsed_address(text@)->0),
    ensures
        r is Some,
        rescheme(text@, scheme@) == Some(r->0@),
        occurs_at("https:"@, r->0@, 0),
        parsed_address(r->0@) is Some,
        parsed_address(r->0@)->0 == (AddressView {
            scheme: "https"@,
            text: r->0@,
            ..parsed_address(text@)->0
        }),
        rescheme(r->0@, scheme@) == Some(r->0@),
{
    let mut url = reqwest::Url::parse(text).ok()?;
    url.set_scheme(scheme).ok()?;
    Some(url.into())
}

/// Whether a scheme is one of the web's two.
pub open spec fn is_web(scheme: Seq<char>) -> bool {
    scheme == "http"@ || scheme == "https"@
}

/// Whether a host is the domain or stands below it.
pub open spec fn in_domain(host: Seq<char>, domain: Seq<char>) -> bool {
    host == domain || occurs_at("."@ + domain, host, host.len() - ("."@ + domain).len())
}

/// Whether a host serves Steam's public images.
pub open spec fn is_steam_host(host: Seq<char>) -> bool {
    in_domain(host, "steamstatic.com"@) || in_domain(host, "steamusercontent.com"@) || in_domain(
        host,
        "steamcommunity.com"@,
    ) || in_domain(host, "akamaihd.net"@)
}

/// The first place from `from` on where a byte stands, if it does.
pub open spec fn first_place(bytes: Seq<u8>, wanted: u8, from: nat) -> Option<nat>
    decreases bytes.len() - from,
{
    if from >= bytes.len() {
        None
    } else if bytes[from as int] == wanted {
        Some(from)
    } else {
        first_place(bytes, wanted, from + 1)
    }
}

/// Where the last part of an address begins: the fragment at its `#`, else the
/// query at its `?`, else the path.
pub open spec fn last_place(parts: AddressView) -> int {
    let bytes = encode_utf8(parts.text);
    match first_place(bytes, 35, 0) {
        Some(at) => at as int,
        None => match first_place(bytes, 63, 0) {
            Some(at) => at as int,
            None => bytes.len() - parts.path_length,
        },
    }
}

/// Whether the last part of an address begins at a place that fits 32 bits once
/// the scheme is `https`, which is a byte longer than `http`.
pub open spec fn fits_https(parts: AddressView) -> bool {
    parts.scheme == "http"@ ==> last_place(parts) < u32::MAX
}

/// Whether an image may be loaded from an address: a web address of a host of
/// Steam's, without credentials, whose places are counted in 32 bits.
pub open spec fn is_image_source(parts: AddressView) -> bool {
    parts.host is Some && is_steam_host(parts.host->0) && is_web(parts.scheme)
        && parts.username.len() == 0 && !parts.has_password && fits_https(parts)
}

/// Whether an address is a public one of Steam's that is loaded over `https`:
/// its own host is Steam's, and it has no credentials.
pub open spec fn is_public_image(address: Seq<char>) -> bool {
    parsed_address(address) matches Some(parts) && is_image_source(parts) && parts.scheme
        == "https"@
}

/// The text of an address with its scheme, which a text that begins with two
/// slashes leaves out.
pub open spec fn full_address(text: Seq<char>) -> Seq<char> {
    if occurs_at("//"@, text, 0) {
        "https:"@ + text
    } else {
        text
    }
}

/// The address from which the image that a text names is loaded, if it may be.
pub open spec fn image_address(text: Seq<char>) -> Option<Seq<char>> {
    let full = full_address(text);
    match parsed_address(full) {
        Some(parts) => if is_image_source(parts) {
            rescheme(full, "https"@)
        } else {
            None
        },
        None => None,
    }
}

fn host_in(host: &str, domain: &str) -> (r: bool)
    ensures
        r == in_domain(host@, domain@),
{
    same_text(host, domain) || ends_with(host, concat2(".", domain).as_str())
}

fn find_byte(bytes: &[u8], wanted: u8) -> (r: Option<usize>)
    ensures
        match r {
            Some(at) => first_place(bytes@, wanted, 0) == Some(at as nat),
            None => first_place(bytes@, wanted, 0) is None,
        },
{
    let mut i: usize = 0;
    while i < bytes.len()
        invariant
            i <= bytes@.len(),
            first_place(bytes@, wanted, 0) == first_place(bytes@, wanted, i as nat),
        decreases bytes@.len() - i,
    {
        if bytes[i] == wanted {
            return Some(i);
        }
        i = i + 1;
    }
    None
}

fn last_place_fits(parts: &AddressParts) -> (r: bool)
    ensures
        r == (last_place(parts@) < u32::MAX),
{
    let bytes = parts.text.as_str().as_bytes();
    match find_byte(bytes, 35) {
        Some(at) => at < u32::MAX as usize,
        None => match find_byte(bytes, 63) {
            Some(at) => at < u32::MAX as usize,
            None => parts.path_length >= bytes.len() || bytes.len() - parts.path_length
                < u32::MAX as usize,
        },
    }
}

/// Whether an image may be loaded from an address with these parts.
pub fn allows_image(parts: &AddressParts) -> (r: bool)
    ensures
        r == is_image_source(parts@),
{
    let host = match &parts.host {
        Some(host) => host.as_str(),
        None => return false,
    };
    let steam = host_in(host, "steamstatic.com") || host_in(host, "steamusercontent.com")
        || host_in(host, "steamcommunity.com") || host_in(host, "akamaihd.net");
    let scheme = parts.scheme.as_str();
    let plain = same_text(scheme, "http");
    steam && (plain || same_text(scheme, "https")) && parts.username.as_str().is_empty()
        && !parts.has_password && (!plain || last_place_fits(parts))
}

/// An address that begins with its scheme and that the address library writes
/// unchanged is found again as it is: what may be loaded once may be loaded
/// again, from the same address.
pub proof fn public_images_stay(address: Seq<char>)
    requires
        is_public_image(address),
        occurs_at("https:"@, address, 0),
        rescheme(address, "https"@) == Some(address),
    ensures
        image_address(address) == Some(address),
{
    reveal_strlit("https:");
    reveal_strlit("//");
    if occurs_at("//"@, address, 0) {
        assert(address.subrange(0, 6)[0] == 'h');
        assert(address.subrange(0, 2)[0] == '/');
    }
}

/// The address from which the image that a text names is loaded. Only public
/// addresses of Steam's are ever handed to the image loader, and it always
/// loads them over `https`; such an address is found again unchanged.
pub fn steam_image_url(value: &str) -> (r: Option<String>)
    ensures
        match r {
            Some(address) => image_address(value@) == Some(address@),
            None => image_address(value@) is None,
        },
        parsed_address(full_address(value@)) matches Some(parts) && is_image_source(parts) <==> r is Some,
        r matches Some(address) ==> {
            &&& occurs_at("https:"@, address@, 0)
            &&& is_public_image(address@)
            &&& image_address(address@) == Some(address@)
        },
{
    let full = if begins_with(value, "//") {
        concat2("https:", value)
    } else {
        value.to_owned()
    };
    let parts = match parse_address(full.as_str()) {
        Some(parts) => parts,
        None => return None,
    };
    if !allows_image(&parts) {
        return None;
    }
    let address = with_scheme(full.as_str(), "https");
    proof {
        reveal_strlit("http");
        reveal_strlit("https");
        assert("http"@.len() != "https"@.len());
        public_images_stay(address->0@);
    }
    address
}

proof fn lemma_in_domain(host: Seq<char>, domain: Seq<char>, suffix: Seq<char>)
    requires
        suffix == "."@ + domain,
    ensures
        in_domain(host, domain) <==> host == domain || (host.len() >= suffix.len() && host.skip(
            host.len() - suffix.len(),
        ) == suffix),
{
    let at = host.len() - suffix.len();
    if 0 <= at {
        assert(host.skip(at) =~= host.subrange(at, at + suffix.len()));
    }
}

/// The hosts of Steam's images are four domains and what stands below them
/// behind a dot: a host that merely ends in the same letters is none.
pub proof fn steams_hosts_are_four(host: Seq<char>)
    ensures
        is_steam_host(host) <==> {
            ||| host == "steamstatic.com"@
            ||| host == "steamusercontent.com"@
            ||| host == "steamcommunity.com"@
            ||| host == "akamaihd.net"@
            ||| host.len() >= 16 && host.skip(host.len() - 16) == ".steamstatic.com"@
            ||| host.len() >= 21 && host.skip(host.len() - 21) == ".steamusercontent.com"@
            ||| host.len() >= 19 && host.skip(host.len() - 19) == ".steamcommunity.com"@
            ||| host.len() >= 13 && host.skip(host.len() - 13) == ".akamaihd.net"@
        },
{
    reveal_strlit(".");
    reveal_strlit("steamstatic.com");
    reveal_strlit(".steamstatic.com");
    reveal_strlit("steamusercontent.com");
    reveal_strlit(".steamusercontent.com");
    reveal_strlit("steamcommunity.com");
    reveal_strlit(".steamcommunity.com");
    reveal_strlit("akamaihd.net");
    reveal_strlit(".akamaihd.net");
    assert(".steamstatic.com"@ =~= "."@ + "steamstatic.com"@);
    assert(".steamusercontent.com"@ =~= "."@ + "steamusercontent.com"@);
    assert(".steamcommunity.com"@ =~= "."@ + "steamcommunity.com"@);
    assert(".akamaihd.net"@ =~= "."@ + "akamaihd.net"@);
    lemma_in_domain(host, "steamstatic.com"@, ".steamstatic.com"@);
    lemma_in_domain(host, "steamusercontent.com"@, ".steamusercontent.com"@);
    lemma_in_domain(host, "steamcommunity.com"@, ".steamcommunity.com"@);
    lemma_in_domain(host, "akamaihd.net"@, ".akamaihd.net"@);
}

/// An image is loaded only from a host of Steam's, over the web, without a user
/// name or a password, and what is loaded is that same address with the scheme
/// `https`. A text that begins with two slashes is read as an `https` address.
pub proof fn images_come_from_steam_alone(text: Seq<char>, full: Seq<char>, parts: AddressView)
    requires
        full == if text.len() >= 2 && text[0] == '/' && text[1] == '/' {
            "https:"@ + text
        } else {
            text
        },
        parsed_address(full) == Some(parts),
    ensures
        image_address(text) is Some ==> {
            &&& parts.host matches Some(host) && is_steam_host(host)
            &&& parts.scheme == "http"@ || parts.scheme == "https"@
            &&& parts.username.len() == 0
            &&& !parts.has_password
            &&& image_address(text) == rescheme(full, "https"@)
        },
        parts.scheme == "https"@ && parts.username.len() == 0 && !parts.has_password && (
        parts.host matches Some(host) && is_steam_host(host)) ==> image_address(text) == rescheme(
            full,
            "https"@,
        ),
{
    reveal_strlit("//");
    reveal_strlit("http");
    reveal_strlit("https");
    assert("http"@.len() != "https"@.len());
    if occurs_at("//"@, text, 0) {
        assert(text.subrange(0, 2)[0] == text[0]);
        assert(text.subrange(0, 2)[1] == text[1]);
    }
    if text.len() >= 2 && text[0] == '/' && text[1] == '/' {
        assert(text.subrange(0, 2) =~= "//"@);
    }
}

} // verus!
