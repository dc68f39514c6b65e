//! Application-level state shared with the interface: the mode the key
//! handlers are in, the in-progress edit fields, text editing at a
//! cursor, wrap-around list navigation and the station search.

use vstd::prelude::*;

use crate::db::Station;
use crate::rcast::RcastStation;
use crate::strutil::{contains_sub, lower_of, push_char, spec_find, to_lowercase_str};

verus! {

/// Mirror of the in-progress edit fields, passed to the render layer.
pub struct AppState {
    pub edit_station_name: String,
    pub edit_station_url: String,
    pub edit_station_desc: String,
}

/// Which set of key bindings is live.
#[derive(PartialEq, Eq, Structural, Clone, Copy, Debug)]
pub enum AppMode {
    Normal,
    AddingStation,
    EditingStation,
    VisualizationMenu,
    DeletingStation,
    RcastStations,
    Searching,
}

/// A character typed into an edit field lands at the cursor, or at the
/// end when the cursor is past the text; the cursor moves one right.
pub fn edit_insert_char(text: &str, cursor: usize, c: char) -> (r: (String, usize))
    requires
        cursor < usize::MAX,
    ensures
        ({
            let k = if cursor < text@.len() {
                cursor as int
            } else {
                text@.len() as int
            };
            r.0@ == text@.subrange(0, k) + seq![c] + text@.subrange(k, text@.len() as int)
        }),
        r.1 == cursor + 1,
{
    let len = text.unicode_len();
    let k = if cursor < len {
        cursor
    } else {
        len
    };
    let mut out = String::from_str(text.substring_char(0, k));
    push_char(&mut out, c);
    out.append(text.substring_char(k, len));
    proof {
        assert(out@ =~= text@.subrange(0, k as int) + seq![c] + text@.subrange(
            k as int,
            text@.len() as int,
        ));
    }
    (out, cursor + 1)
}

/// Backspace removes the character left of the cursor and moves the
/// cursor one left; at the start of the field nothing changes.
pub fn edit_backspace(text: &str, cursor: usize) -> (r: (String, usize))
    requires
        cursor <= text@.len(),
    ensures
        cursor == 0 ==> r.0@ == text@ && r.1 == 0,
        cursor > 0 ==> r.0@ == text@.subrange(0, cursor - 1) + text@.subrange(
            cursor as int,
            text@.len() as int,
        ) && r.1 == cursor - 1,
{
    if cursor == 0 {
        return (String::from_str(text), 0);
    }
    let len = text.unicode_len();
    let mut out = String::from_str(text.substring_char(0, cursor - 1));
    out.append(text.substring_char(cursor, len));
    (out, cursor - 1)
}

/// The selection one below `selected` in a list of `len` entries,
/// wrapping from the last entry to the first.
pub fn next_index(selected: Option<usize>, len: usize) -> (r: usize)
    requires
        len > 0,
    ensures
        selected is None ==> r == 0,
        selected matches Some(i) ==> r == (if i >= len - 1 {
            0int
        } else {
            i + 1
        }),
{
    match selected {
        Some(i) => {
            if i >= len - 1 {
                0
            } else {
                i + 1
            }
        },
        None => 0,
    }
}

/// The selection one above `selected`, wrapping from the first entry
/// to the last.
pub fn prev_index(selected: Option<usize>, len: usize) -> (r: usize)
    requires
        len > 0,
    ensures
        selected is None ==> r == 0,
        selected matches Some(i) ==> r == (if i == 0 {
            len - 1
        } else {
            i - 1int
        }),
{
    match selected {
        Some(i) => {
            if i == 0 {
                len - 1
            } else {
                i - 1
            }
        },
        None => 0,
    }
}

/// A station matches a lowercase query when its lowercase name, or its
/// lowercase description, contains the query.
pub open spec fn station_matches(s: Station, q: Seq<char>) -> bool {
    spec_find(lower_of(s.name@), q) is Some || (s.description matches Some(d) && spec_find(
        lower_of(d@),
        q,
    ) is Some)
}

/// A directory station viewed as a catalog record, as the search
/// result list holds it.
pub open spec fn rcast_as_station(rs: RcastStation) -> Station {
    Station { id: 0, name: rs.name, url: rs.url, favorite: false, description: rs.description }
}

/// The saved stations that match a lowercase query, in order.
pub open spec fn spec_station_filter(ss: Seq<Station>, q: Seq<char>) -> Seq<Station> {
    ss.filter(|s: Station| station_matches(s, q))
}

/// The directory stations that match, viewed as catalog records.
pub open spec fn spec_rcast_filter(rr: Seq<RcastStation>, q: Seq<char>) -> Seq<Station> {
    rr.map_values(|rs: RcastStation| rcast_as_station(rs)).filter(
        |s: Station| station_matches(s, q),
    )
}

/// The full search result list for a query.
pub open spec fn spec_search_results(
    stations: Seq<Station>,
    rcast: Seq<RcastStation>,
    query: Seq<char>,
) -> Seq<Station> {
    spec_station_filter(stations, lower_of(query)) + spec_rcast_filter(rcast, lower_of(query))
}

proof fn lemma_station_filter_push(ss: Seq<Station>, x: Station, q: Seq<char>)
    ensures
        spec_station_filter(ss.push(x), q) == spec_station_filter(ss, q) + (if station_matches(
            x,
            q,
        ) {
            seq![x]
        } else {
            Seq::<Station>::empty()
        }),
{
    reveal(Seq::filter);
    assert((ss.push(x)).drop_last() =~= ss);
}

proof fn lemma_rcast_filter_push(rr: Seq<RcastStation>, x: RcastStation, q: Seq<char>)
    ensures
        spec_rcast_filter(rr.push(x), q) == spec_rcast_filter(rr, q) + (if station_matches(
            rcast_as_station(x),
            q,
        ) {
            seq![rcast_as_station(x)]
        } else {
            Seq::<Station>::empty()
        }),
{
    reveal(Seq::filter);
    let f = |rs: RcastStation| rcast_as_station(rs);
    assert((rr.push(x)).map_values(f) =~= rr.map_values(f).push(rcast_as_station(x)));
    assert((rr.map_values(f).push(rcast_as_station(x))).drop_last() =~= rr.map_values(f));
}

/// The search results for `query`: every saved station whose lowercase
/// name or description contains the lowercase query, followed by every
/// matching directory station, in their original orders. An empty
/// query yields no results.
pub fn update_search_results(
    stations: &Vec<Station>,
    rcast_stations: &Vec<RcastStation>,
    query: &str,
) -> (r: Vec<Station>)
    ensures
        query@.len() == 0 ==> r@.len() == 0,
        query@.len() > 0 ==> r@ == spec_search_results(stations@, rcast_stations@, query@),
{
    let mut results: Vec<Station> = Vec::new();
    if query.unicode_len() == 0 {
        return results;
    }
    let q = to_lowercase_str(query);
    let ghost qv = lower_of(query@);

    let mut i: usize = 0;
    while i < stations.len()
        invariant
            i <= stations@.len(),
            q@ == qv,
            results@ == spec_station_filter(stations@.subrange(0, i as int), qv),
        decreases stations@.len() - i,
    {
        let st = &stations[i];
        let lname = to_lowercase_str(st.name.as_str());
        let mut matched = contains_sub(lname.as_str(), q.as_str());
        if !matched {
            match &st.description {
                Some(d) => {
                    let ldesc = to_lowercase_str(d.as_str());
                    matched = contains_sub(ldesc.as_str(), q.as_str());
                },
                None => {},
            }
        }
        proof {
            assert(matched == station_matches(*st, qv));
            assert(stations@.subrange(0, i + 1) =~= stations@.subrange(0, i as int).push(*st));
            lemma_station_filter_push(stations@.subrange(0, i as int), *st, qv);
        }
        if matched {
            let description: Option<String> = match &st.description {
                Some(d) => Some(d.clone()),
                None => None,
            };
            let copy = Station {
                id: st.id,
                name: st.name.clone(),
                url: st.url.clone(),
                favorite: st.favorite,
                description,
            };
            proof {
                assert(copy == *st);
            }
            results.push(copy);
        }
        i = i + 1;
    }

    let ghost head = spec_station_filter(stations@, qv);
    proof {
        assert(stations@.subrange(0, stations@.len() as int) =~= stations@);
    }
    let mut j: usize = 0;
    while j < rcast_stations.len()
        invariant
            j <= rcast_stations@.len(),
            q@ == qv,
            head == spec_station_filter(stations@, qv),
            results@ == head + spec_rcast_filter(rcast_stations@.subrange(0, j as int), qv),
        decreases rcast_stations@.len() - j,
    {
        let rs = &rcast_stations[j];
        let lname = to_lowercase_str(rs.name.as_str());
        let mut matched = contains_sub(lname.as_str(), q.as_str());
        if !matched {
            match &rs.description {
                Some(d) => {
                    let ldesc = to_lowercase_str(d.as_str());
                    matched = contains_sub(ldesc.as_str(), q.as_str());
                },
                None => {},
            }
        }
        let description: Option<String> = match &rs.description {
            Some(d) => Some(d.clone()),
            None => None,
        };
        let station = Station {
            id: 0,
            name: rs.name.clone(),
            url: rs.url.clone(),
            favorite: false,
            description,
        };
        proof {
            assert(station == rcast_as_station(*rs));
            assert(matched == station_matches(station, qv));
            assert(rcast_stations@.subrange(0, j + 1) =~= rcast_stations@.subrange(
                0,
                j as int,
            ).push(*rs));
            lemma_rcast_filter_push(rcast_stations@.subrange(0, j as int), *rs, qv);
        }
        if matched {
            results.push(station);
        }
        j = j + 1;
    }
    proof {
        assert(rcast_stations@.subrange(0, rcast_stations@.len() as int) =~= rcast_stations@);
    }
    results
}

} // verus!
