//! Stations scraped from the rcast.net directory.
//!
//! The page embeds one JavaScript stream declaration per station, of
//! the shape `var stream<ID> = { ... }`. The scraper collects each
//! numeric id once, in order of first appearance, builds the station's
//! stream URL from it, and tries to recover a display name from a
//! nearby `<h4>` heading, falling back to a generic name. Fetching the
//! page is the application's business; everything here is plain text
//! work.

use vstd::prelude::*;

use crate::db::Station;
use crate::strutil::{
    concat_str, find_from, find_from_sub, find_sub, is_digit, is_digit_char, is_space_char,
    push_char, replace_all, rfind_sub, spec_replace, spec_trim, str_eq, trim_str,
};

verus! {

/// Why fetching or reading the directory failed.
#[derive(Debug)]
pub enum RcastError {
    NetworkError(String),
    ParseError(String),
}

impl RcastError {
    /// The error rendered for display.
    pub fn message(&self) -> (r: String)
        ensures
            self matches RcastError::NetworkError(e) ==> r@ == "Network error: "@ + e@,
            self matches RcastError::ParseError(e) ==> r@ == "Parse error: "@ + e@,
    {
        match self {
            RcastError::NetworkError(e) => concat_str("Network error: ", e.as_str()),
            RcastError::ParseError(e) => concat_str("Parse error: ", e.as_str()),
        }
    }
}

/// One station of the directory listing.
pub struct RcastStation {
    pub name: String,
    pub url: String,
    pub description: Option<String>,
    pub bitrate: Option<String>,
    pub genre: Option<String>,
    pub listeners: Option<u32>,
}

/// Converts a directory station to a catalog record; the id is left
/// for the store to assign.
pub fn rcast_to_db_station(rcast_station: &RcastStation) -> (r: Station)
    ensures
        r.id == 0,
        r.name == rcast_station.name,
        r.url == rcast_station.url,
        !r.favorite,
        r.description == rcast_station.description,
{
    let description: Option<String> = match &rcast_station.description {
        Some(d) => Some(d.clone()),
        None => None,
    };
    Station {
        id: 0,
        name: rcast_station.name.clone(),
        url: rcast_station.url.clone(),
        favorite: false,
        description,
    }
}

/// The stream ids the scan collects from the page, in order of first
/// appearance: after each `var stream` the text up to the next blank
/// is taken, and kept when it is all digits and new.
pub open spec fn scan_ids(h: Seq<char>, pos: int, seen: Seq<Seq<char>>) -> Seq<Seq<char>>
    decreases h.len() - pos,
{
    match find_from(h, "var stream"@, pos) {
        Some(vp) => {
            let after = vp + "var stream"@.len();
            match find_from(h, " "@, after) {
                Some(sp) => {
                    if after <= sp <= h.len() && pos < sp {
                        let id = h.subrange(after, sp);
                        if all_digits(id) && !seen.contains(id) {
                            seq![id] + scan_ids(h, sp, seen.push(id))
                        } else {
                            scan_ids(h, sp, seen)
                        }
                    } else {
                        Seq::empty()
                    }
                },
                None => Seq::empty(),
            }
        },
        None => Seq::empty(),
    }
}

/// What the scraper guarantees of each produced station: its URL and
/// description are built from its id, the optional fields are empty,
/// and its name is either the generic one for that id or a nonempty
/// cleaned heading of fewer than a hundred characters.
pub open spec fn scraped_station_ok(st: RcastStation, id: Seq<char>) -> bool {
    &&& st.url@ == "https://stream.rcast.net/"@ + id
    &&& st.description matches Some(d) && d@ == "Icecast Radio Station, ID: "@ + id
    &&& st.bitrate is None
    &&& st.genre is None
    &&& st.listeners is None
    &&& (st.name@ == "Icecast Station "@ + id || (0 < st.name@.len() < 100))
}

/// Every character is a decimal digit (vacuously true of nothing).
pub open spec fn all_digits(s: Seq<char>) -> bool {
    forall|k: int| 0 <= k < s.len() ==> is_digit_char(#[trigger] s[k])
}

fn all_digits_str(s: &str) -> (b: bool)
    ensures
        b == all_digits(s@),
{
    let len = s.unicode_len();
    let mut i: usize = 0;
    while i < len
        invariant
            i <= len,
            len == s@.len(),
            forall|k: int| 0 <= k < i ==> is_digit_char(#[trigger] s@[k]),
        decreases len - i,
    {
        if !is_digit(s.get_char(i)) {
            return false;
        }
        i = i + 1;
    }
    true
}

/// The text from position `i` on with everything between `<` and `>`
/// removed.
pub open spec fn strip_tags_from(s: Seq<char>, i: int, in_tag: bool) -> Seq<char>
    decreases s.len() - i,
{
    if i < 0 || i >= s.len() {
        Seq::empty()
    } else if s[i] == '<' {
        strip_tags_from(s, i + 1, true)
    } else if s[i] == '>' {
        strip_tags_from(s, i + 1, false)
    } else if !in_tag {
        seq![s[i]] + strip_tags_from(s, i + 1, in_tag)
    } else {
        strip_tags_from(s, i + 1, in_tag)
    }
}

/// The text from position `i` on with every run of blanks folded to a
/// single space; `last_sp` tells whether a blank was just emitted.
pub open spec fn fold_ws_from(s: Seq<char>, i: int, last_sp: bool) -> Seq<char>
    decreases s.len() - i,
{
    if i < 0 || i >= s.len() {
        Seq::empty()
    } else if is_space_char(s[i]) {
        if last_sp {
            fold_ws_from(s, i + 1, true)
        } else {
            seq![' '] + fold_ws_from(s, i + 1, true)
        }
    } else {
        seq![s[i]] + fold_ws_from(s, i + 1, false)
    }
}

/// The entity table applied one replacement after another, the same
/// cascading way repeated text replacement applies it.
pub open spec fn spec_entity_decode(s: Seq<char>) -> Seq<char> {
    let s1 = spec_replace(s, "&amp;"@, "&"@);
    let s2 = spec_replace(s1, "&lt;"@, "<"@);
    let s3 = spec_replace(s2, "&gt;"@, ">"@);
    let s4 = spec_replace(s3, "&quot;"@, "\""@);
    let s5 = spec_replace(s4, "&apos;"@, "'"@);
    let s6 = spec_replace(s5, "&#39;"@, "'"@);
    let s7 = spec_replace(s6, "<br>"@, " "@);
    let s8 = spec_replace(s7, "<br/>"@, " "@);
    spec_replace(s8, "<br />"@, " "@)
}

/// Heading text made displayable: entities decoded, tags removed,
/// blanks folded, ends trimmed.
pub open spec fn spec_clean_html(s: Seq<char>) -> Seq<char> {
    spec_trim(fold_ws_from(strip_tags_from(spec_entity_decode(s), 0, false), 0, true))
}

fn strip_tags(s: &str) -> (r: String)
    ensures
        r@ == strip_tags_from(s@, 0, false),
{
    let len = s.unicode_len();
    let mut out = String::new();
    let mut in_tag = false;
    let mut i: usize = 0;
    while i < len
        invariant
            i <= len,
            len == s@.len(),
            strip_tags_from(s@, 0, false) == out@ + strip_tags_from(s@, i as int, in_tag),
        decreases len - i,
    {
        let ghost pre_out = out@;
        let ghost pre_tag = in_tag;
        let c = s.get_char(i);
        if c == '<' {
            in_tag = true;
        } else if c == '>' {
            in_tag = false;
        } else if !in_tag {
            push_char(&mut out, c);
        }
        proof {
            assert(out@ + strip_tags_from(s@, i + 1, in_tag) =~= pre_out + strip_tags_from(
                s@,
                i as int,
                pre_tag,
            ));
        }
        i = i + 1;
    }
    proof {
        assert(strip_tags_from(s@, 0, false) =~= out@);
    }
    out
}

fn fold_ws(s: &str) -> (r: String)
    ensures
        r@ == fold_ws_from(s@, 0, true),
{
    let len = s.unicode_len();
    let mut out = String::new();
    let mut last_sp = true;
    let mut i: usize = 0;
    while i < len
        invariant
            i <= len,
            len == s@.len(),
            fold_ws_from(s@, 0, true) == out@ + fold_ws_from(s@, i as int, last_sp),
        decreases len - i,
    {
        let ghost pre_out = out@;
        let ghost pre_sp = last_sp;
        let c = s.get_char(i);
        if crate::strutil::is_space(c) {
            if !last_sp {
                push_char(&mut out, ' ');
                last_sp = true;
            }
        } else {
            push_char(&mut out, c);
            last_sp = false;
        }
        proof {
            assert(out@ + fold_ws_from(s@, i + 1, last_sp) =~= pre_out + fold_ws_from(
                s@,
                i as int,
                pre_sp,
            ));
        }
        i = i + 1;
    }
    proof {
        assert(fold_ws_from(s@, 0, true) =~= out@);
    }
    out
}

/// Makes a scraped heading displayable: decodes the common entities,
/// drops every tag, folds runs of blanks and trims the ends.
pub fn clean_html(text: &str) -> (r: String)
    ensures
        r@ == spec_clean_html(text@),
{
    proof {
        reveal_strlit("&amp;");
        reveal_strlit("&lt;");
        reveal_strlit("&gt;");
        reveal_strlit("&quot;");
        reveal_strlit("&apos;");
        reveal_strlit("&#39;");
        reveal_strlit("<br>");
        reveal_strlit("<br/>");
        reveal_strlit("<br />");
    }
    let s1 = replace_all(text, "&amp;", "&");
    let s2 = replace_all(s1.as_str(), "&lt;", "<");
    let s3 = replace_all(s2.as_str(), "&gt;", ">");
    let s4 = replace_all(s3.as_str(), "&quot;", "\"");
    let s5 = replace_all(s4.as_str(), "&apos;", "'");
    let s6 = replace_all(s5.as_str(), "&#39;", "'");
    let s7 = replace_all(s6.as_str(), "<br>", " ");
    let s8 = replace_all(s7.as_str(), "<br/>", " ");
    let s9 = replace_all(s8.as_str(), "<br />", " ");
    let stripped = strip_tags(s9.as_str());
    let folded = fold_ws(stripped.as_str());
    trim_str(folded.as_str())
}

fn contains_string(v: &Vec<String>, s: &str) -> (b: bool)
    ensures
        b == exists|k: int| 0 <= k < v@.len() && #[trigger] v@[k]@ == s@,
{
    let mut j: usize = 0;
    while j < v.len()
        invariant
            j <= v@.len(),
            forall|k: int| 0 <= k < j ==> #[trigger] v@[k]@ != s@,
        decreases v@.len() - j,
    {
        if str_eq(v[j].as_str(), s) {
            return true;
        }
        j = j + 1;
    }
    false
}

/// Extracts the stations declared in the directory page.
///
/// The produced list has one station per collected id, in order; each
/// station's URL and description are built from its id, and its name
/// is the nearby heading when one can be recovered. The heading search
/// itself is best effort and only its outcome is specified.
pub fn parse_stations_from_html(html: &str) -> (r: Result<Vec<RcastStation>, RcastError>)
    ensures
        r is Ok,
        r->Ok_0@.len() == scan_ids(html@, 0, Seq::empty()).len(),
        forall|k: int| 0 <= k < r->Ok_0@.len() ==> scraped_station_ok(
            #[trigger] r->Ok_0@[k],
            scan_ids(html@, 0, Seq::empty())[k],
        ),
{
    proof {
        reveal_strlit("var stream");
        reveal_strlit(" ");
    }
    let ghost all_ids = scan_ids(html@, 0, Seq::empty());
    let mut stations: Vec<RcastStation> = Vec::new();
    let mut seen: Vec<String> = Vec::new();
    let ghost mut seen_g: Seq<Seq<char>> = Seq::empty();
    let hl = html.unicode_len();
    let mut pos: usize = 0;
    let mut running = true;
    while running
        invariant
            hl == html@.len(),
            hl <= usize::MAX,
            pos <= hl,
            running ==> all_ids == seen_g + scan_ids(html@, pos as int, seen_g),
            !running ==> all_ids == seen_g,
            stations@.len() == seen_g.len(),
            seen@.len() == seen_g.len(),
            forall|k: int| 0 <= k < seen_g.len() ==> #[trigger] seen@[k]@ == seen_g[k],
            forall|k: int| 0 <= k < stations@.len() ==> scraped_station_ok(
                #[trigger] stations@[k],
                seen_g[k],
            ),
        decreases hl - pos, (if running { 1int } else { 0int }),
    {
        proof {
            reveal_strlit("var stream");
            reveal_strlit(" ");
        }
        match find_from_sub(html, "var stream", pos) {
            None => {
                proof {
                    assert(scan_ids(html@, pos as int, seen_g) =~= Seq::<Seq<char>>::empty());
                    assert(all_ids =~= seen_g);
                }
                running = false;
            },
            Some(vp) => {
                let after = vp + 10;
                match find_from_sub(html, " ", after) {
                    None => {
                        proof {
                            assert(scan_ids(html@, pos as int, seen_g)
                                =~= Seq::<Seq<char>>::empty());
                            assert(all_ids =~= seen_g);
                        }
                        running = false;
                    },
                    Some(sp) => {
                        let id_s = html.substring_char(after, sp);
                        let ghost id = html@.subrange(after as int, sp as int);
                        let is_id = all_digits_str(id_s);
                        let dup = contains_string(&seen, id_s);
                        proof {
                            if dup {
                                assert(seen_g.contains(id));
                            }
                            if !dup {
                                assert forall|k: int| 0 <= k < seen_g.len() implies seen_g[k]
                                    != id by {
                                    assert(seen@[k]@ != id_s@);
                                }
                                assert(!seen_g.contains(id));
                            }
                        }
                        if is_id && !dup {
                            seen.push(String::from_str(id_s));
                            let mut name = concat_str("Icecast Station ", id_s);
                            let marker = concat_str("id=\"currentsong_", id_s);
                            match find_sub(html, marker.as_str()) {
                                Some(id_pos) => {
                                    let name_start = if id_pos > 2000 {
                                        id_pos - 2000
                                    } else {
                                        0
                                    };
                                    let context = html.substring_char(name_start, id_pos);
                                    match rfind_sub(context, "<h4") {
                                        Some(h4_pos) => {
                                            match find_from_sub(context, ">", h4_pos) {
                                                Some(gt) => {
                                                    let h4_start = gt + 1;
                                                    match find_from_sub(
                                                        context,
                                                        "</h4>",
                                                        h4_start,
                                                    ) {
                                                        Some(h4_end) => {
                                                            let raw = context.substring_char(
                                                                h4_start,
                                                                h4_end,
                                                            );
                                                            let cleaned = clean_html(raw);
                                                            let cl =
                                                                cleaned.as_str().unicode_len();
                                                            if cl > 0 && cl < 100 {
                                                                name = cleaned;
                                                            }
                                                        },
                                                        None => {},
                                                    }
                                                },
                                                None => {},
                                            }
                                        },
                                        None => {},
                                    }
                                },
                                None => {},
                            }
                            let url = concat_str("https://stream.rcast.net/", id_s);
                            let desc = concat_str("Icecast Radio Station, ID: ", id_s);
                            let station = RcastStation {
                                name,
                                url,
                                description: Some(desc),
                                bitrate: None,
                                genre: None,
                                listeners: None,
                            };
                            stations.push(station);
                            proof {
                                assert(scan_ids(html@, pos as int, seen_g) == seq![id]
                                    + scan_ids(html@, sp as int, seen_g.push(id)));
                                assert(seen_g + (seq![id] + scan_ids(
                                    html@,
                                    sp as int,
                                    seen_g.push(id),
                                )) =~= seen_g.push(id) + scan_ids(html@, sp as int, seen_g.push(id)));
                                seen_g = seen_g.push(id);
                            }
                        } else {
                            proof {
                                assert(scan_ids(html@, pos as int, seen_g) == scan_ids(
                                    html@,
                                    sp as int,
                                    seen_g,
                                ));
                            }
                        }
                        pos = sp;
                    },
                }
            },
        }
    }
    Ok(stations)
}

} // verus!
