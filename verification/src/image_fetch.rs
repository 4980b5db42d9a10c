//! Where the bytes of a picture may come from.
use vstd::prelude::*;
use url::Url;
use crate::address::{is_blocked, is_blocked_image_ip, IpAddr};
use crate::text::same_text;

verus! {

/// The directory below the user's cache directory that holds pictures.
pub const CACHE_DIRECTORY: &'static str = "io.github.tobagin.Ntfyr";

/// What a URL says of the server: `S` is the type of its texts.
#[derive(Debug, PartialEq)]
pub struct UrlParts<S> {
    pub scheme: S,
    pub host: Option<S>,
    /// The port that is given, or else the one that the scheme is known for.
    pub port: Option<u16>,
}

impl View for UrlParts<String> {
    type V = UrlParts<Seq<char>>;

    open spec fn view(&self) -> UrlParts<Seq<char>> {
        UrlParts {
            scheme: self.scheme@,
            host: match self.host {
                Some(host) => Some(host@),
                None => None,
            },
            port: self.port,
        }
    }
}

/// Why a picture is not fetched: `S` is the type of its texts.
#[derive(Debug, PartialEq)]
pub enum ImageUrlError<S> {
    /// The address is no URL, for the reason given.
    InvalidUrl(S),
    UnsupportedScheme,
    NoHost,
    NoPort,
    /// The host has no address, or one that pictures are never fetched from.
    BlockedAddress,
}

impl View for ImageUrlError<String> {
    type V = ImageUrlError<Seq<char>>;

    open spec fn view(&self) -> ImageUrlError<Seq<char>> {
        match *self {
            ImageUrlError::InvalidUrl(reason) => ImageUrlError::InvalidUrl(reason@),
            ImageUrlError::UnsupportedScheme => ImageUrlError::UnsupportedScheme,
            ImageUrlError::NoHost => ImageUrlError::NoHost,
            ImageUrlError::NoPort => ImageUrlError::NoPort,
            ImageUrlError::BlockedAddress => ImageUrlError::BlockedAddress,
        }
    }
}

/// What an error is reported as.
pub open spec fn error_message(error: ImageUrlError<Seq<char>>) -> Seq<char> {
    match error {
        ImageUrlError::InvalidUrl(reason) => reason,
        ImageUrlError::UnsupportedScheme => "unsupported image URL scheme"@,
        ImageUrlError::NoHost => "image URL has no host"@,
        ImageUrlError::NoPort => "image URL has no port"@,
        ImageUrlError::BlockedAddress => "image URL resolves to a blocked address"@,
    }
}

impl ImageUrlError<String> {
    /// The text to report the error with.
    pub fn message(&self) -> (message: String)
        ensures
            message@ == error_message(self@),
    {
        match self {
            ImageUrlError::InvalidUrl(reason) => reason.as_str().to_owned(),
            ImageUrlError::UnsupportedScheme => "unsupported image URL scheme".to_owned(),
            ImageUrlError::NoHost => "image URL has no host".to_owned(),
            ImageUrlError::NoPort => "image URL has no port".to_owned(),
            ImageUrlError::BlockedAddress => "image URL resolves to a blocked address".to_owned(),
        }
    }
}

/// A host and a port on it: `S` is the type of its texts.
#[derive(Debug, PartialEq)]
pub struct ImageTarget<S> {
    pub host: S,
    pub port: u16,
}

impl View for ImageTarget<String> {
    type V = ImageTarget<Seq<char>>;

    open spec fn view(&self) -> ImageTarget<Seq<char>> {
        ImageTarget { host: self.host@, port: self.port }
    }
}

/// The schemes that pictures are fetched by.
pub open spec fn is_image_scheme(scheme: Seq<char>) -> bool {
    scheme == "http"@ || scheme == "https"@
}

/// What `url::Url::parse` makes of a text: the parts of the URL, or the reason why it is none.
pub uninterp spec fn url_parts(raw_url: Seq<char>) -> Result<UrlParts<Seq<char>>, Seq<char>>;

/// A result with its texts as sequences of characters.
pub open spec fn parts_view(parsed: Result<UrlParts<String>, String>) -> Result<
    UrlParts<Seq<char>>,
    Seq<char>,
> {
    match parsed {
        Ok(parts) => Ok(parts@),
        Err(reason) => Err(reason@),
    }
}

/// A result with its texts as sequences of characters.
pub open spec fn target_view(
    target: Result<ImageTarget<String>, ImageUrlError<String>>,
) -> Result<ImageTarget<Seq<char>>, ImageUrlError<Seq<char>>> {
    match target {
        Ok(target) => Ok(target@),
        Err(error) => Err(error@),
    }
}

/// The server that a picture is on, or why it is not fetched.
pub open spec fn target_of(parsed: Result<UrlParts<Seq<char>>, Seq<char>>) -> Result<
    ImageTarget<Seq<char>>,
    ImageUrlError<Seq<char>>,
> {
    match parsed {
        Err(reason) => Err(ImageUrlError::InvalidUrl(reason)),
        Ok(parts) => if !is_image_scheme(parts.scheme) {
            Err(ImageUrlError::UnsupportedScheme)
        } else {
            match (parts.host, parts.port) {
                (None, _) => Err(ImageUrlError::NoHost),
                (Some(_), None) => Err(ImageUrlError::NoPort),
                (Some(host), Some(port)) => Ok(ImageTarget { host, port }),
            }
        },
    }
}

/// The host has addresses, and none of them is one that pictures are never fetched from.
pub open spec fn is_admissible(addresses: Seq<IpAddr>) -> bool {
    &&& addresses.len() > 0
    &&& forall|i: int| 0 <= i < addresses.len() ==> !is_blocked(#[trigger] addresses[i])
}

/// `url::Url::parse`, with the scheme, `host_str` and `port_or_known_default` of the URL, or
/// the text of the error. The outcome is determined by the text. A URL of the schemes `http`
/// and `https` has a host, since parsing rejects one without, and a known port.
#[verifier::external_body]
fn parse_url(raw_url: &str) -> (parsed: Result<UrlParts<String>, String>)
    ensures
        parts_view(parsed) == url_parts(raw_url@),
        parsed matches Ok(parts) ==> is_image_scheme(parts.scheme@) ==> parts.host is Some
            && parts.port is Some,
{
    match Url::parse(raw_url) {
        Ok(url) => Ok(
            UrlParts {
                scheme: url.scheme().to_string(),
                host: url.host_str().map(|host| host.to_string()),
                port: url.port_or_known_default(),
            },
        ),
        Err(error) => Err(error.to_string()),
    }
}

/// The server that a picture is on, from the parts of its URL.
pub fn image_target(parsed: Result<UrlParts<String>, String>) -> (target: Result<
    ImageTarget<String>,
    ImageUrlError<String>,
>)
    ensures
        target_view(target) == target_of(parts_view(parsed)),
{
    match parsed {
        Err(reason) => Err(ImageUrlError::InvalidUrl(reason)),
        Ok(parts) => {
            if !same_text(parts.scheme.as_str(), "http") && !same_text(
                parts.scheme.as_str(),
                "https",
            ) {
                return Err(ImageUrlError::UnsupportedScheme);
            }
            let Some(host) = parts.host else {
                return Err(ImageUrlError::NoHost);
            };
            let Some(port) = parts.port else {
                return Err(ImageUrlError::NoPort);
            };
            Ok(ImageTarget { host, port })
        },
    }
}

/// Whether the addresses of a host allow pictures to be fetched from it.
pub fn check_image_addresses(addresses: &Vec<IpAddr>) -> (checked: Result<
    (),
    ImageUrlError<String>,
>)
    ensures
        match checked {
            Ok(()) => is_admissible(addresses@),
            Err(error) => !is_admissible(addresses@) && error@ == ImageUrlError::<
                Seq<char>,
            >::BlockedAddress,
        },
{
    if addresses.len() == 0 {
        return Err(ImageUrlError::BlockedAddress);
    }
    let mut i: usize = 0;
    while i < addresses.len()
        invariant
            i <= addresses@.len(),
            forall|j: int| 0 <= j < i ==> !is_blocked(#[trigger] addresses@[j]),
        decreases addresses.len() - i,
    {
        if is_blocked_image_ip(addresses[i]) {
            return Err(ImageUrlError::BlockedAddress);
        }
        i += 1;
    }
    Ok(())
}

/// Where the bytes of a picture come from: `S` is the type of its texts.
#[derive(Debug, PartialEq)]
pub enum ImageSource<S> {
    /// The file `entry` in the directory `directory` below the user's cache directory.
    Cache { directory: S, entry: S },
    /// A request for `url` that follows at most `max_redirects` redirections.
    Network { url: S, max_redirects: u32 },
}

impl View for ImageSource<String> {
    type V = ImageSource<Seq<char>>;

    open spec fn view(&self) -> ImageSource<Seq<char>> {
        match *self {
            ImageSource::Cache { directory, entry } => ImageSource::Cache {
                directory: directory@,
                entry: entry@,
            },
            ImageSource::Network { url, max_redirects } => ImageSource::Network {
                url: url@,
                max_redirects,
            },
        }
    }
}

/// Where the bytes of a picture come from, or why it is not fetched: given its address, what
/// the host resolves to, and whether the cache holds it. Redirections are not followed, since
/// they would lead past the check of the addresses.
pub open spec fn fetch_outcome(raw_url: Seq<char>, addresses: Seq<IpAddr>, cached: bool) -> Result<
    ImageSource<Seq<char>>,
    ImageUrlError<Seq<char>>,
> {
    match target_of(url_parts(raw_url)) {
        Err(error) => Err(error),
        Ok(_) => if !is_admissible(addresses) {
            Err(ImageUrlError::BlockedAddress)
        } else if cached {
            Ok(ImageSource::Cache { directory: CACHE_DIRECTORY@, entry: raw_url })
        } else {
            Ok(ImageSource::Network { url: raw_url, max_redirects: 0 })
        },
    }
}

/// A picture whose host is still to be resolved.
#[derive(Debug)]
pub struct ImageRequest {
    url: String,
    target: ImageTarget<String>,
}

impl ImageRequest {
    /// The address of the picture.
    pub closed spec fn url(self) -> Seq<char> {
        self.url@
    }

    /// The server that the picture is on.
    pub closed spec fn target(self) -> ImageTarget<Seq<char>> {
        self.target@
    }

    #[verifier::type_invariant]
    closed spec fn is_valid(self) -> bool {
        target_of(url_parts(self.url())) == Ok::<_, ImageUrlError<Seq<char>>>(self.target())
    }

    /// A request for the picture at `raw_url`. It is refused where the address is no URL of a
    /// web server; a web address always has a host and a port.
    pub fn new(raw_url: &str) -> (request: Result<ImageRequest, ImageUrlError<String>>)
        ensures
            match request {
                Ok(request) => request.url() == raw_url@ && target_of(url_parts(raw_url@)) == Ok::<
                    _,
                    ImageUrlError<Seq<char>>,
                >(request.target()),
                Err(error) => target_of(url_parts(raw_url@)) == Err::<
                    ImageTarget<Seq<char>>,
                    _,
                >(error@) && (error is InvalidUrl || error is UnsupportedScheme),
            },
    {
        match image_target(parse_url(raw_url)) {
            Ok(target) => Ok(ImageRequest { url: raw_url.to_owned(), target }),
            Err(error) => Err(error),
        }
    }

    /// The host to resolve, and the port on it.
    pub fn resolve(&self) -> (target: &ImageTarget<String>)
        ensures
            target@ == self.target(),
    {
        &self.target
    }

    /// Goes on with the addresses that the host resolved to.
    pub fn approve(self, addresses: Vec<IpAddr>) -> (approved: Result<
        ApprovedImage,
        ImageUrlError<String>,
    >)
        ensures
            match approved {
                Ok(image) => image.url() == self.url() && image.addresses() == addresses@
                    && is_admissible(addresses@),
                Err(error) => !is_admissible(addresses@) && forall|cached: bool|
                    fetch_outcome(self.url(), addresses@, cached) == Err::<
                        ImageSource<Seq<char>>,
                        _,
                    >(error@),
            },
    {
        proof {
            use_type_invariant(&self);
        }
        match check_image_addresses(&addresses) {
            Ok(()) => Ok(ApprovedImage { url: self.url, addresses }),
            Err(error) => Err(error),
        }
    }
}

/// A picture that may be fetched.
#[derive(Debug)]
pub struct ApprovedImage {
    url: String,
    addresses: Vec<IpAddr>,
}

impl ApprovedImage {
    /// The address of the picture.
    pub closed spec fn url(self) -> Seq<char> {
        self.url@
    }

    /// The addresses of its host.
    pub closed spec fn addresses(self) -> Seq<IpAddr> {
        self.addresses@
    }

    #[verifier::type_invariant]
    closed spec fn is_valid(self) -> bool {
        &&& target_of(url_parts(self.url())) is Ok
        &&& is_admissible(self.addresses())
    }

    /// The file that holds the picture once it is cached: its directory, and its name there.
    pub fn cache_file(&self) -> (file: (&'static str, &str))
        ensures
            file.0@ == CACHE_DIRECTORY@,
            file.1@ == self.url(),
    {
        (CACHE_DIRECTORY, self.url.as_str())
    }

    /// Where to get the bytes, given whether the cache holds the picture.
    pub fn source(&self, cached: bool) -> (source: ImageSource<String>)
        ensures
            fetch_outcome(self.url(), self.addresses(), cached) == Ok::<
                _,
                ImageUrlError<Seq<char>>,
            >(source@),
    {
        proof {
            use_type_invariant(self);
        }
        if cached {
            ImageSource::Cache {
                directory: CACHE_DIRECTORY.to_owned(),
                entry: self.url.as_str().to_owned(),
            }
        } else {
            ImageSource::Network { url: self.url.as_str().to_owned(), max_redirects: 0 }
        }
    }
}

/// Nothing is read from the cache or the network unless the address is a web address whose
/// host has addresses and none of them is blocked; and then something is.
pub proof fn law_only_admissible_pictures_are_fetched(
    raw_url: Seq<char>,
    addresses: Seq<IpAddr>,
    cached: bool,
)
    ensures
        fetch_outcome(raw_url, addresses, cached) is Ok <==> {
            &&& target_of(url_parts(raw_url)) is Ok
            &&& is_admissible(addresses)
        },
        fetch_outcome(raw_url, addresses, cached) is Ok ==> {
            &&& url_parts(raw_url) is Ok
            &&& is_image_scheme(url_parts(raw_url)->Ok_0.scheme)
        },
{
}

/// One blocked address among those of a host is enough to refuse the picture, and the refusal
/// says so, whether or not the cache holds it.
pub proof fn law_one_blocked_address_refuses(
    raw_url: Seq<char>,
    addresses: Seq<IpAddr>,
    cached: bool,
    i: int,
)
    requires
        target_of(url_parts(raw_url)) is Ok,
        0 <= i < addresses.len(),
        is_blocked(addresses[i]),
    ensures
        fetch_outcome(raw_url, addresses, cached) == Err::<ImageSource<Seq<char>>, _>(
            ImageUrlError::<Seq<char>>::BlockedAddress,
        ),
{
}

/// Neither the order of the addresses of a host matters nor how often each is listed: the same
/// addresses lead to the same outcome.
pub proof fn law_order_of_addresses_is_irrelevant(
    raw_url: Seq<char>,
    addresses: Seq<IpAddr>,
    others: Seq<IpAddr>,
    cached: bool,
)
    requires
        forall|ip: IpAddr| addresses.contains(ip) <==> others.contains(ip),
    ensures
        fetch_outcome(raw_url, addresses, cached) == fetch_outcome(raw_url, others, cached),
{
    if is_admissible(addresses) {
        lemma_admissible(addresses, others);
    }
    if is_admissible(others) {
        lemma_admissible(others, addresses);
    }
}

/// Whether addresses are admissible depends only on which they are.
proof fn lemma_admissible(addresses: Seq<IpAddr>, others: Seq<IpAddr>)
    requires
        is_admissible(addresses),
        forall|ip: IpAddr| addresses.contains(ip) <==> others.contains(ip),
    ensures
        is_admissible(others),
{
    assert(addresses.contains(addresses[0]));
    assert forall|i: int| 0 <= i < others.len() implies !is_blocked(#[trigger] others[i]) by {
        assert(others.contains(others[i]));
    }
}

/// A picture that the cache does not hold is requested each time that it is fetched, however
/// often it was fetched before. `resolved` lists what its host resolved to for each fetch.
pub proof fn law_uncached_pictures_are_requested_each_time(
    raw_url: Seq<char>,
    resolved: Seq<Seq<IpAddr>>,
)
    requires
        target_of(url_parts(raw_url)) is Ok,
        forall|k: int| 0 <= k < resolved.len() ==> is_admissible(#[trigger] resolved[k]),
    ensures
        forall|k: int|
            0 <= k < resolved.len() ==> fetch_outcome(raw_url, #[trigger] resolved[k], false)
                == Ok::<_, ImageUrlError<Seq<char>>>(
                ImageSource::Network { url: raw_url, max_redirects: 0 },
            ),
{
}

/// The server that a picture is on is the host and the port of its URL, for the schemes `http` and
/// `https` and no others; and each other case has its error.
pub proof fn law_server_of_a_picture(
    reason: Seq<char>,
    scheme: Seq<char>,
    host: Seq<char>,
    some_host: Option<Seq<char>>,
    port: u16,
    some_port: Option<u16>,
)
    ensures
        target_of(Err(reason)) == Err::<ImageTarget<Seq<char>>, _>(
            ImageUrlError::InvalidUrl(reason),
        ),
        scheme != "http"@ && scheme != "https"@ ==> target_of(
            Ok(UrlParts { scheme, host: some_host, port: some_port }),
        ) == Err::<ImageTarget<Seq<char>>, _>(ImageUrlError::<Seq<char>>::UnsupportedScheme),
        scheme == "http"@ || scheme == "https"@ ==> {
            &&& target_of(Ok(UrlParts { scheme, host: None, port: some_port })) == Err::<
                ImageTarget<Seq<char>>,
                _,
            >(ImageUrlError::<Seq<char>>::NoHost)
            &&& target_of(Ok(UrlParts { scheme, host: Some(host), port: None })) == Err::<
                ImageTarget<Seq<char>>,
                _,
            >(ImageUrlError::<Seq<char>>::NoPort)
            &&& target_of(Ok(UrlParts { scheme, host: Some(host), port: Some(port) })) == Ok::<
                _,
                ImageUrlError<Seq<char>>,
            >(ImageTarget { host, port })
        },
{
}

/// What becomes of a picture: an address that names no server has its error, whatever else holds;
/// a server without addresses, or with a blocked one, is refused; and from any other the picture
/// is read under its address from the cache if it is there, and is requested at its address
/// without following redirections if it is not.
pub proof fn law_what_becomes_of_a_picture(
    raw_url: Seq<char>,
    addresses: Seq<IpAddr>,
    cached: bool,
)
    ensures
        CACHE_DIRECTORY@ == "io.github.tobagin.Ntfyr"@,
        target_of(url_parts(raw_url)) matches Err(error) ==> fetch_outcome(
            raw_url,
            addresses,
            cached,
        ) == Err::<ImageSource<Seq<char>>, _>(error),
        target_of(url_parts(raw_url)) is Ok ==> {
            let refused = addresses.len() == 0 || exists|i: int|
                0 <= i < addresses.len() && is_blocked(#[trigger] addresses[i]);
            &&& refused ==> fetch_outcome(raw_url, addresses, cached) == Err::<
                ImageSource<Seq<char>>,
                _,
            >(ImageUrlError::<Seq<char>>::BlockedAddress)
            &&& !refused ==> fetch_outcome(raw_url, addresses, true) == Ok::<
                _,
                ImageUrlError<Seq<char>>,
            >(
                ImageSource::Cache { directory: "io.github.tobagin.Ntfyr"@, entry: raw_url },
            )
            &&& !refused ==> fetch_outcome(raw_url, addresses, false) == Ok::<
                _,
                ImageUrlError<Seq<char>>,
            >(ImageSource::Network { url: raw_url, max_redirects: 0 })
        },
        is_admissible(addresses) <==> addresses.len() > 0 && forall|i: int|
            0 <= i < addresses.len() ==> !is_blocked(#[trigger] addresses[i]),
{
}

/// What each error is reported as.
pub proof fn law_errors_say_what_is_wrong(reason: Seq<char>)
    ensures
        error_message(ImageUrlError::InvalidUrl(reason)) == reason,
        error_message(ImageUrlError::UnsupportedScheme) == "unsupported image URL scheme"@,
        error_message(ImageUrlError::NoHost) == "image URL has no host"@,
        error_message(ImageUrlError::NoPort) == "image URL has no port"@,
        error_message(ImageUrlError::BlockedAddress) == "image URL resolves to a blocked address"@,
{
}

/// URLs, servers, sources and errors are spoken of as they are.
pub proof fn law_fetches_are_spoken_of_as_they_are(
    parts: UrlParts<String>,
    target: ImageTarget<String>,
    error: ImageUrlError<String>,
    a: String,
    b: String,
    max_redirects: u32,
)
    ensures
        parts@.scheme == parts.scheme@,
        parts.host matches Some(host) ==> parts@.host == Some(host@),
        parts.host is None ==> parts@.host is None,
        parts@.port == parts.port,
        target@.host == target.host@,
        target@.port == target.port,
        ImageUrlError::InvalidUrl(a)@ == ImageUrlError::InvalidUrl(a@),
        ImageUrlError::<String>::UnsupportedScheme@ == ImageUrlError::<
            Seq<char>,
        >::UnsupportedScheme,
        ImageUrlError::<String>::NoHost@ == ImageUrlError::<Seq<char>>::NoHost,
        ImageUrlError::<String>::NoPort@ == ImageUrlError::<Seq<char>>::NoPort,
        ImageUrlError::<String>::BlockedAddress@ == ImageUrlError::<Seq<char>>::BlockedAddress,
        (ImageSource::Cache { directory: a, entry: b })@ == (ImageSource::Cache {
            directory: a@,
            entry: b@,
        }),
        (ImageSource::Network { url: a, max_redirects })@ == (ImageSource::Network {
            url: a@,
            max_redirects,
        }),
        parts_view(Ok(parts)) == Ok::<_, Seq<char>>(parts@),
        parts_view(Err(a)) == Err::<UrlParts<Seq<char>>, _>(a@),
        target_view(Ok(target)) == Ok::<_, ImageUrlError<Seq<char>>>(target@),
        target_view(Err(error)) == Err::<ImageTarget<Seq<char>>, _>(error@),
{
}

} // verus!
