use rei::platform::Platform;
use rei::resources::{
    base_url, format_url, load_bytes, load_string, try_format_url, Contents, Load, Source,
    CRATE_LOCATION,
};

fn url(text: &str) -> reqwest::Url {
    reqwest::Url::parse(text).unwrap()
}

#[test]
fn base_ends_in_a_slash() {
    assert_eq!(CRATE_LOCATION, "");
    assert_eq!(base_url("https://example.org"), "https://example.org/");
}

#[test]
fn files_are_relative_to_the_origin() {
    assert_eq!(
        format_url("https://example.org:8080", "shaders/model_shader.wgsl").as_str(),
        "https://example.org:8080/shaders/model_shader.wgsl"
    );
}

#[test]
fn names_are_resolved_as_addresses() {
    assert_eq!(
        format_url("https://EXAMPLE.org", "a/../b c.png").as_str(),
        "https://example.org/b%20c.png"
    );
    assert_eq!(format_url("https://example.org", "//eve.com/b").as_str(), "https://eve.com/b");
}

#[test]
fn origin_that_is_no_address_has_no_files() {
    assert_eq!(try_format_url("null", "model.obj"), None);
    assert_eq!(try_format_url("https://example.org", "http://["), None);
    assert_eq!(
        try_format_url("https://example.org", "model.obj"),
        Some(url("https://example.org/model.obj"))
    );
}

#[test]
fn native_loads_come_from_files() {
    assert_eq!(
        load_bytes(Platform::Native, "res/rei.obj"),
        Some(Load { source: Source::File(String::from("res/rei.obj")), contents: Contents::Bytes })
    );
    assert_eq!(
        load_string(Platform::Native, "res/rei.mtl"),
        Some(Load { source: Source::File(String::from("res/rei.mtl")), contents: Contents::Text })
    );
}

#[test]
fn web_loads_are_requests() {
    let web = Platform::Web { origin: "https://example.org" };
    assert_eq!(
        load_bytes(web, "res/rei.obj"),
        Some(Load {
            source: Source::Url(url("https://example.org/res/rei.obj")),
            contents: Contents::Bytes,
        })
    );
    assert_eq!(
        load_string(web, "res/rei.mtl"),
        Some(Load {
            source: Source::Url(url("https://example.org/res/rei.mtl")),
            contents: Contents::Text,
        })
    );
    let nowhere = Platform::Web { origin: "null" };
    assert_eq!(load_bytes(nowhere, "res/rei.obj"), None);
    assert_eq!(load_string(nowhere, "res/rei.mtl"), None);
}
