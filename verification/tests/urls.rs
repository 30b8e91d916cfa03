use spotify_server::urls::query_fits;

fn params(pairs: &[(&str, &str)]) -> Vec<(String, String)> {
    pairs.iter().map(|(k, v)| (k.to_string(), v.to_string())).collect()
}

#[test]
fn query_fits_short_urls() {
    assert!(query_fits("https://accounts.spotify.com/authorize", &params(&[("client_id", "abc")])));
    assert!(query_fits("https://a/#f", &params(&[("name", "a value with spaces"), ("x", "é")])));
    assert!(query_fits("https://a/", &Vec::new()));
}
