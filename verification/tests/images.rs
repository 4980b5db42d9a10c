use message_row::images::markdown_image_urls;

#[test]
fn web_images_are_found_in_order() {
    assert_eq!(
        markdown_image_urls("a ![x](http://a.b/1.png) b ![y](https://c.d/2.png)"),
        vec!["http://a.b/1.png", "https://c.d/2.png"]
    );
}

#[test]
fn other_targets_are_passed_over() {
    assert_eq!(
        markdown_image_urls("![x](file:///etc/passwd) ![y](ftp://a.b) ![z](http://a.b)"),
        vec!["http://a.b"]
    );
    assert!(markdown_image_urls("![x](HTTP://a.b)").is_empty());
    assert!(markdown_image_urls("![x]()").is_empty());
}

#[test]
fn links_and_unfinished_images_give_nothing() {
    assert!(markdown_image_urls("").is_empty());
    assert!(markdown_image_urls("[x](http://a.b)").is_empty());
    assert!(markdown_image_urls("![x] http://a.b").is_empty());
    assert!(markdown_image_urls("![x](http://a.b").is_empty());
    assert_eq!(markdown_image_urls("![x](http://a.b) ![y](http://c.d"), vec!["http://a.b"]);
}

#[test]
fn the_target_ends_at_the_first_parenthesis() {
    assert_eq!(markdown_image_urls("![x](http://a.b/(1).png)"), vec!["http://a.b/(1"]);
    assert_eq!(
        markdown_image_urls("![x](http://a.b \"title\")"),
        vec!["http://a.b \"title\""]
    );
}

#[test]
fn the_target_follows_the_next_bracket_whatever_is_between() {
    assert_eq!(markdown_image_urls("![ and [l](http://a.b)"), vec!["http://a.b"]);
    assert_eq!(markdown_image_urls("![![x](http://a.b)](http://c.d)"), vec!["http://a.b"]);
}

#[test]
fn characters_of_several_bytes_are_no_obstacle() {
    assert_eq!(markdown_image_urls("é![ü](http://ä.b/ö.png)…"), vec!["http://ä.b/ö.png"]);
}
