use radio_cli::rcast::{
    clean_html, parse_stations_from_html, rcast_to_db_station, RcastError, RcastStation,
};

#[test]
fn scrapes_numeric_ids_once_each() {
    let html = "junk var stream207313 = { mp3 } more var stream207313 = { } \
                var streamABC = { } var stream99 = { } tail";
    let stations = parse_stations_from_html(html).unwrap();
    assert_eq!(stations.len(), 2);
    assert_eq!(stations[0].url, "https://stream.rcast.net/207313");
    assert_eq!(
        stations[0].description.as_deref(),
        Some("Icecast Radio Station, ID: 207313")
    );
    assert_eq!(stations[0].name, "Icecast Station 207313");
    assert_eq!(stations[1].url, "https://stream.rcast.net/99");
    assert!(stations[0].bitrate.is_none());
    assert!(stations[0].genre.is_none());
    assert!(stations[0].listeners.is_none());
}

#[test]
fn scrape_of_plain_text_is_empty() {
    assert!(parse_stations_from_html("nothing to see here").unwrap().is_empty());
    assert!(parse_stations_from_html("").unwrap().is_empty());
}

#[test]
fn heading_near_the_player_names_the_station() {
    let html = "var stream42 = { mp3 } <h4>Rock &amp; Roll FM</h4> \
                <div id=\"currentsong_42\"></div>";
    let stations = parse_stations_from_html(html).unwrap();
    assert_eq!(stations.len(), 1);
    assert_eq!(stations[0].name, "Rock & Roll FM");
    assert_eq!(stations[0].url, "https://stream.rcast.net/42");
}

#[test]
fn cleans_entities_tags_and_blanks() {
    assert_eq!(clean_html("Rock &amp; Roll"), "Rock & Roll");
    assert_eq!(clean_html("<b>bold</b> words"), "bold words");
    assert_eq!(clean_html("  too   many\tspaces  "), "too many spaces");
    assert_eq!(clean_html("a<br>b<br/>c<br />d"), "a b c d");
    assert_eq!(clean_html("&lt;tag&gt; &quot;q&quot; &apos;a&apos; &#39;b&#39;"), "\"q\" 'a' 'b'");
    assert_eq!(clean_html(""), "");
}

#[test]
fn error_messages_name_their_class() {
    let n = RcastError::NetworkError("timed out".to_string());
    assert_eq!(n.message(), "Network error: timed out");
    let p = RcastError::ParseError("bad page".to_string());
    assert_eq!(p.message(), "Parse error: bad page");
}

#[test]
fn directory_station_becomes_catalog_record() {
    let rs = RcastStation {
        name: "Jazz 24".to_string(),
        url: "https://stream.rcast.net/7".to_string(),
        description: Some("All jazz".to_string()),
        bitrate: Some("128".to_string()),
        genre: Some("jazz".to_string()),
        listeners: Some(10),
    };
    let st = rcast_to_db_station(&rs);
    assert_eq!(st.id, 0);
    assert_eq!(st.name, "Jazz 24");
    assert_eq!(st.url, "https://stream.rcast.net/7");
    assert!(!st.favorite);
    assert_eq!(st.description.as_deref(), Some("All jazz"));
}
