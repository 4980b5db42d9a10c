use message_row::address::IpAddr;
use message_row::image_fetch::{
    check_image_addresses, image_target, ImageRequest, ImageSource, ImageTarget, ImageUrlError,
    UrlParts,
};

fn parts(scheme: &str, host: Option<&str>, port: Option<u16>) -> UrlParts<String> {
    UrlParts { scheme: scheme.to_string(), host: host.map(|h| h.to_string()), port }
}

fn target(host: &str, port: u16) -> ImageTarget<String> {
    ImageTarget { host: host.to_string(), port }
}

fn public() -> IpAddr {
    IpAddr::V4([93, 184, 216, 34])
}

#[test]
fn web_addresses_name_a_server() {
    let request = ImageRequest::new("https://example.com/a.png").unwrap();
    assert_eq!(*request.resolve(), target("example.com", 443));
    let request = ImageRequest::new("http://EXAMPLE.com").unwrap();
    assert_eq!(*request.resolve(), target("example.com", 80));
    let request = ImageRequest::new("http://user@bücher.example:8080/x").unwrap();
    assert_eq!(*request.resolve(), target("xn--bcher-kva.example", 8080));
    let request = ImageRequest::new("http://[::1]/x").unwrap();
    assert_eq!(*request.resolve(), target("[::1]", 80));
    let request = ImageRequest::new("http://0x7f.1/").unwrap();
    assert_eq!(*request.resolve(), target("127.0.0.1", 80));
}

#[test]
fn what_is_no_url_is_refused() {
    let error = ImageRequest::new("not a url").unwrap_err();
    assert_eq!(error, ImageUrlError::InvalidUrl("relative URL without a base".to_string()));
    assert_eq!(error.message(), "relative URL without a base");
    let error = ImageRequest::new("http://").unwrap_err();
    assert_eq!(error.message(), "empty host");
    let error = ImageRequest::new("http://a:99999/").unwrap_err();
    assert_eq!(error.message(), "invalid port number");
}

#[test]
fn other_schemes_are_refused() {
    for url in ["ftp://example.com/a.png", "file:///etc/passwd", "data:text/plain,x"] {
        let error = ImageRequest::new(url).unwrap_err();
        assert_eq!(error, ImageUrlError::UnsupportedScheme);
        assert_eq!(error.message(), "unsupported image URL scheme");
    }
}

#[test]
fn the_parts_of_a_url_decide() {
    assert_eq!(image_target(Ok(parts("http", Some("a"), Some(1)))), Ok(target("a", 1)));
    assert_eq!(image_target(Ok(parts("https", Some("a"), Some(2)))), Ok(target("a", 2)));
    assert_eq!(
        image_target(Ok(parts("ws", Some("a"), Some(80)))),
        Err(ImageUrlError::UnsupportedScheme)
    );
    assert_eq!(image_target(Ok(parts("http", None, Some(80)))), Err(ImageUrlError::NoHost));
    assert_eq!(image_target(Ok(parts("http", Some("a"), None))), Err(ImageUrlError::NoPort));
    assert_eq!(image_target(Ok(parts("http", None, None))), Err(ImageUrlError::NoHost));
    assert_eq!(
        image_target(Err("why".to_string())),
        Err(ImageUrlError::InvalidUrl("why".to_string()))
    );
}

#[test]
fn errors_have_messages() {
    assert_eq!(ImageUrlError::<String>::NoHost.message(), "image URL has no host");
    assert_eq!(ImageUrlError::<String>::NoPort.message(), "image URL has no port");
    assert_eq!(
        ImageUrlError::<String>::BlockedAddress.message(),
        "image URL resolves to a blocked address"
    );
}

#[test]
fn one_blocked_address_is_enough_to_refuse() {
    assert_eq!(check_image_addresses(&vec![public()]), Ok(()));
    assert_eq!(check_image_addresses(&vec![]), Err(ImageUrlError::BlockedAddress));
    assert_eq!(
        check_image_addresses(&vec![public(), IpAddr::V4([127, 0, 0, 1])]),
        Err(ImageUrlError::BlockedAddress)
    );
    assert_eq!(
        check_image_addresses(&vec![IpAddr::V6([0, 0, 0, 0, 0, 0, 0, 1]), public()]),
        Err(ImageUrlError::BlockedAddress)
    );
}

#[test]
fn an_approved_picture_comes_from_the_cache_or_the_network() {
    let url = "https://example.com/a.png";
    let image = ImageRequest::new(url).unwrap().approve(vec![public()]).unwrap();
    assert_eq!(image.cache_file(), ("io.github.tobagin.Ntfyr", url));
    assert_eq!(
        image.source(true),
        ImageSource::Cache {
            directory: "io.github.tobagin.Ntfyr".to_string(),
            entry: url.to_string(),
        }
    );
    assert_eq!(
        image.source(false),
        ImageSource::Network { url: url.to_string(), max_redirects: 0 }
    );
}

#[test]
fn a_picture_on_a_blocked_host_is_not_approved() {
    let request = ImageRequest::new("http://localhost/a.png").unwrap();
    let error = request.approve(vec![IpAddr::V4([127, 0, 0, 1])]).unwrap_err();
    assert_eq!(error, ImageUrlError::BlockedAddress);
    let request = ImageRequest::new("http://nowhere.invalid/a.png").unwrap();
    assert_eq!(request.approve(vec![]).unwrap_err(), ImageUrlError::BlockedAddress);
}

#[test]
fn an_uncached_picture_is_requested_each_time() {
    for addresses in [vec![public()], vec![IpAddr::V4([8, 8, 8, 8]), public()], vec![public()]] {
        let request = ImageRequest::new("https://example.com/a.png").unwrap();
        assert_eq!(
            request.approve(addresses).unwrap().source(false),
            ImageSource::Network { url: "https://example.com/a.png".to_string(), max_redirects: 0 }
        );
    }
}

#[test]
fn the_order_of_the_addresses_does_not_matter() {
    let blocked = IpAddr::V4([10, 0, 0, 1]);
    let other = IpAddr::V4([8, 8, 8, 8]);
    for addresses in [vec![blocked, public()], vec![public(), blocked], vec![public(), blocked, public()]] {
        assert_eq!(check_image_addresses(&addresses), Err(ImageUrlError::BlockedAddress));
    }
    assert_eq!(check_image_addresses(&vec![public(), other]), Ok(()));
    assert_eq!(check_image_addresses(&vec![other, public(), other]), Ok(()));
}
