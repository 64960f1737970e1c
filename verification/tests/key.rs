use axum_static_s3::request_to_key;

#[test]
fn one_segment_is_discarded_behind_the_prefix() {
    assert_eq!(request_to_key("static/", "/app/assets/logo.png", 1), "static/assets/logo.png");
}

#[test]
fn no_prefix_and_no_pruning_drops_the_leading_slash() {
    assert_eq!(request_to_key("", "/file.txt", 0), "file.txt");
}

#[test]
fn a_path_without_leading_slash_is_taken_as_it_is() {
    assert_eq!(request_to_key("", "file.txt", 0), "file.txt");
    assert_eq!(request_to_key("p/", "dir/file.txt", 0), "p/dir/file.txt");
}

#[test]
fn the_prefix_is_put_in_front_without_a_separator() {
    assert_eq!(request_to_key("my-prefix", "/index.html", 0), "my-prefixindex.html");
    assert_eq!(request_to_key("my-prefix/", "/index.html", 0), "my-prefix/index.html");
}

#[test]
fn three_segments_are_discarded() {
    assert_eq!(
        request_to_key("", "/stage/my-app/static/deployment/index.html", 3),
        "deployment/index.html"
    );
}

#[test]
fn segments_are_counted_behind_the_leading_slash() {
    assert_eq!(request_to_key("", "/a/b/c", 1), "b/c");
    assert_eq!(request_to_key("", "a/b/c", 1), "b/c");
    assert_eq!(request_to_key("", "/a/b/c", 2), "c");
}

#[test]
fn every_count_up_to_the_number_of_segments_discards_that_many() {
    let path = "/one/two/three/four";
    let kept = ["one/two/three/four", "two/three/four", "three/four", "four", ""];
    for (count, rest) in kept.iter().enumerate() {
        assert_eq!(request_to_key("pre/", path, count), format!("pre/{}", rest));
    }
}

#[test]
fn a_count_equal_to_the_number_of_segments_leaves_the_prefix() {
    assert_eq!(request_to_key("static/", "/a/b", 2), "static/");
}

#[test]
fn a_count_above_the_number_of_segments_leaves_the_prefix() {
    assert_eq!(request_to_key("static/", "/a/b", 3), "static/");
    assert_eq!(request_to_key("static/", "/a/b", 100), "static/");
    assert_eq!(request_to_key("static/", "/a/b", usize::MAX), "static/");
    assert_eq!(request_to_key("", "/a/b", 7), "");
}

#[test]
fn the_empty_path_has_one_empty_segment() {
    assert_eq!(request_to_key("p/", "", 0), "p/");
    assert_eq!(request_to_key("p/", "", 1), "p/");
    assert_eq!(request_to_key("p/", "/", 0), "p/");
    assert_eq!(request_to_key("p/", "/", 1), "p/");
}

#[test]
fn all_leading_slashes_of_the_rest_are_taken_off() {
    assert_eq!(request_to_key("p/", "//file.txt", 0), "p/file.txt");
    assert_eq!(request_to_key("p/", "////file.txt", 0), "p/file.txt");
    assert_eq!(request_to_key("p/", "/a//b", 1), "p/b");
    assert_eq!(request_to_key("p/", "/a///b/c", 1), "p/b/c");
    assert_eq!(request_to_key("p/", "///", 0), "p/");
}

#[test]
fn only_leading_slashes_are_taken_off() {
    assert_eq!(request_to_key("", "/a/b//c/", 1), "b//c/");
    assert_eq!(request_to_key("", "/a/b/", 2), "");
    assert_eq!(request_to_key("", "/a/b/", 0), "a/b/");
}

#[test]
fn an_empty_leading_segment_counts_as_a_segment() {
    assert_eq!(request_to_key("", "//a/b", 1), "a/b");
    assert_eq!(request_to_key("", "//a/b", 2), "b");
}

#[test]
fn no_key_is_refused() {
    assert_eq!(request_to_key("static/", "/app/../secret", 1), "static/../secret");
    assert_eq!(request_to_key("", "/./x", 0), "./x");
}

#[test]
fn characters_of_several_bytes_are_kept_whole() {
    assert_eq!(request_to_key("ö/", "/é/日本語/ü.txt", 1), "ö/日本語/ü.txt");
    assert_eq!(request_to_key("", "/é/日本語/ü.txt", 2), "ü.txt");
    assert_eq!(request_to_key("", "é", 0), "é");
}
