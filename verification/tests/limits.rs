use grok_oauth::limits::{json_counts_fit, json_text_fits, url_counts_fit, url_text_fits};

#[test]
fn ordinary_urls_can_be_counted() {
    for text in [
        "",
        " \u{1}https://user:pw@example.com:8443/v1?x#y\u{2} ",
        "HT\tTP:\\\\\\example.com\\v1",
        "wss:/a\nb",
        "ftp://a/b",
        "file:///c:/d",
        "web+demo:/.//not-a-host/",
        "web+demo://host\\still/path",
        "data:text/plain,hello",
        "a:",
        "a:/",
        "a://",
        "1a://b",
        ":",
        "not a url",
        "例え",
    ] {
        assert!(url_counts_fit(text), "{text}");
        assert!(url_text_fits(text), "{text}");
    }
}

#[test]
fn ordinary_json_can_be_counted() {
    for text in [
        "",
        "0",
        "-0.000120",
        "18446744073709551615",
        "18446744073709551616",
        "184467440737095516150000",
        "[1.5e+10, 2E-3, 3e7, 0.5]",
        r#"{"a":"12\"34\\","b":[0.0001844674407370955161699,99999999999999999999.25]}"#,
        "\"123",
        "00012.",
        "e-5 .5 +",
        "认证",
    ] {
        assert!(json_counts_fit(text), "{text}");
        assert!(json_text_fits(text), "{text}");
    }
}
