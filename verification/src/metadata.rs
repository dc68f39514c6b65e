//! Line-oriented parser for the decoder's status output.
//!
//! The decoder emits one status line per metadata update, carrying a
//! song-title segment and `FORMAT:` / `BITRATE:` segments in no fixed
//! order. The parser is total: it recognizes only lines that carry the
//! status prefix, and tolerates a missing marker, swapped markers and
//! truncated lines without error. The format is the text between the
//! `FORMAT:` marker and a following `BITRATE:` marker or the end of the
//! line; the bitrate is the text after `BITRATE:` up to the end of the
//! line, suffixed " kbps"; the song is the trimmed text before the
//! first marker. Missing or empty segments fall back to "Unknown", or
//! to no song at all.

use vstd::prelude::*;

use crate::audio::StreamInfo;
use crate::strutil::{
    concat_str, find_sub, is_space_char, lemma_find_exact, lemma_find_none,
    lemma_find_some_bounds, lemma_matches_shift, lemma_trim_all_space, matches_at, spec_find,
    spec_trim, starts_with_sub, trim_str,
};

verus! {

/// The fields parsed out of one status line.
pub struct ParsedMetadata {
    pub format: String,
    pub bitrate: String,
    pub song: Option<String>,
}

/// The line content with every leading `"STATUS: "` prefix removed.
pub open spec fn strip_status(s: Seq<char>) -> Seq<char>
    decreases s.len(),
{
    let sp = "STATUS: "@;
    if matches_at(s, sp, 0) && sp.len() > 0 {
        strip_status(s.subrange(sp.len() as int, s.len() as int))
    } else {
        s
    }
}

/// The format field of a content line.
pub open spec fn spec_format(c: Seq<char>) -> Seq<char> {
    let fm = "FORMAT:"@;
    let bm = "BITRATE:"@;
    match spec_find(c, fm) {
        Some(i) => {
            if 0 <= i && i + fm.len() <= c.len() {
                let start = i + fm.len();
                let rest = c.subrange(start, c.len() as int);
                let end = match spec_find(rest, bm) {
                    Some(p) => start + p,
                    None => c.len() as int,
                };
                spec_trim(c.subrange(start, end))
            } else {
                "Unknown"@
            }
        },
        None => "Unknown"@,
    }
}

/// The bitrate field of a content line.
pub open spec fn spec_bitrate(c: Seq<char>) -> Seq<char> {
    let bm = "BITRATE:"@;
    match spec_find(c, bm) {
        Some(i) => {
            if 0 <= i && i + bm.len() <= c.len() {
                let v = spec_trim(c.subrange(i + bm.len(), c.len() as int));
                if v.len() == 0 {
                    "Unknown"@
                } else {
                    v + " kbps"@
                }
            } else {
                "Unknown"@
            }
        },
        None => "Unknown"@,
    }
}

/// Position of the first marker of a content line, or its length when
/// no marker occurs.
pub open spec fn first_marker(c: Seq<char>) -> int {
    let a = match spec_find(c, "FORMAT:"@) {
        Some(i) => i,
        None => c.len() as int,
    };
    let b = match spec_find(c, "BITRATE:"@) {
        Some(i) => i,
        None => c.len() as int,
    };
    if a < b {
        a
    } else {
        b
    }
}

/// The song field of a content line: the trimmed text before the first
/// marker, or nothing when that text is empty.
pub open spec fn spec_song(c: Seq<char>) -> Option<Seq<char>> {
    let s = spec_trim(c.subrange(0, first_marker(c)));
    if s.len() == 0 {
        None
    } else {
        Some(s)
    }
}

/// Parses one line of decoder output.
///
/// Returns fields exactly when the line carries the status prefix; any
/// other line is ignored.
pub fn parse_status_line(line: &str) -> (r: Option<ParsedMetadata>)
    ensures
        r is Some <==> matches_at(line@, "STATUS:"@, 0),
        r matches Some(m) ==> {
            &&& m.format@ == spec_format(strip_status(line@))
            &&& m.bitrate@ == spec_bitrate(strip_status(line@))
            &&& (m.song is Some <==> spec_song(strip_status(line@)) is Some)
            &&& (m.song matches Some(s) ==> spec_song(strip_status(line@)) == Some(s@))
        },
{
    if !starts_with_sub(line, "STATUS:") {
        return None;
    }
    proof {
        reveal_strlit("STATUS: ");
    }
    let mut cur: &str = line;
    while starts_with_sub(cur, "STATUS: ")
        invariant
            strip_status(line@) == strip_status(cur@),
            cur@.len() <= usize::MAX,
        decreases cur@.len(),
    {
        proof {
            reveal_strlit("STATUS: ");
        }
        cur = cur.substring_char(8, cur.unicode_len());
    }
    let ghost content = strip_status(line@);
    proof {
        assert(content == cur@);
    }

    let clen = cur.unicode_len();
    let f_res = find_sub(cur, "FORMAT:");
    let b_res = find_sub(cur, "BITRATE:");

    let format: String = match f_res {
        Some(fi) => {
            proof {
                reveal_strlit("FORMAT:");
            }
            let start = fi + 7;
            let rest = cur.substring_char(start, clen);
            let end: usize = match find_sub(rest, "BITRATE:") {
                Some(p) => start + p,
                None => clen,
            };
            proof {
                reveal_strlit("BITRATE:");
            }
            let piece = cur.substring_char(start, end);
            trim_str(piece)
        },
        None => String::from_str("Unknown"),
    };
    proof {
        assert(format@ == spec_format(content));
    }

    let bitrate: String = match b_res {
        Some(bi) => {
            proof {
                reveal_strlit("BITRATE:");
            }
            let raw = trim_str(cur.substring_char(bi + 8, clen));
            if raw.as_str().unicode_len() == 0 {
                String::from_str("Unknown")
            } else {
                concat_str(raw.as_str(), " kbps")
            }
        },
        None => String::from_str("Unknown"),
    };
    proof {
        assert(bitrate@ == spec_bitrate(content));
    }

    let fpos: usize = match f_res {
        Some(i) => i,
        None => clen,
    };
    let bpos: usize = match b_res {
        Some(i) => i,
        None => clen,
    };
    let first: usize = if fpos < bpos {
        fpos
    } else {
        bpos
    };
    proof {
        reveal_strlit("FORMAT:");
        reveal_strlit("BITRATE:");
        assert(first as int == first_marker(content));
    }
    let s_raw = trim_str(cur.substring_char(0, first));
    let song: Option<String> = if s_raw.as_str().unicode_len() == 0 {
        None
    } else {
        Some(s_raw)
    };

    Some(ParsedMetadata { format, bitrate, song })
}

/// The marker `m` occurs in `c` at position `k` and nowhere else.
pub open spec fn only_match_at(c: Seq<char>, m: Seq<char>, k: int) -> bool {
    &&& matches_at(c, m, k)
    &&& forall|p: int| p != k ==> !matches_at(c, m, p)
}

/// Marker order independence: a line carrying a song segment and the
/// two markers, each occurring once, parses to the same song and the
/// same format whichever marker comes first; on the marker-ordered
/// line the fields are exactly the trimmed segments. The bitrate field
/// reads to the end of the line by definition, so with the markers
/// swapped it also takes in the trailing format segment and is not
/// claimed equal here.
#[verifier::rlimit(60)]
pub proof fn lemma_marker_order_independence(
    s: Seq<char>,
    f: Seq<char>,
    b: Seq<char>,
    c1: Seq<char>,
    c2: Seq<char>,
)
    requires
        c1 == s + "FORMAT:"@ + f + "BITRATE:"@ + b,
        c2 == s + "BITRATE:"@ + b + "FORMAT:"@ + f,
        only_match_at(c1, "FORMAT:"@, s.len() as int),
        only_match_at(c1, "BITRATE:"@, (s.len() + "FORMAT:"@.len() + f.len()) as int),
        only_match_at(c2, "BITRATE:"@, s.len() as int),
        only_match_at(c2, "FORMAT:"@, (s.len() + "BITRATE:"@.len() + b.len()) as int),
    ensures
        spec_song(c1) == spec_song(c2),
        spec_format(c1) == spec_format(c2),
        spec_format(c1) == spec_trim(f),
        spec_song(c1) == (if spec_trim(s).len() == 0 {
            Option::<Seq<char>>::None
        } else {
            Some(spec_trim(s))
        }),
        spec_bitrate(c1) == (if spec_trim(b).len() == 0 {
            "Unknown"@
        } else {
            spec_trim(b) + " kbps"@
        }),
{
    reveal_strlit("FORMAT:");
    reveal_strlit("BITRATE:");
    let fm = "FORMAT:"@;
    let bm = "BITRATE:"@;
    let sl = s.len() as int;
    let fl = f.len() as int;
    let bl = b.len() as int;
    assert(fm.len() == 7);
    assert(bm.len() == 8);
    assert(c1.len() == sl + 7 + fl + 8 + bl);
    assert(c2.len() == sl + 8 + bl + 7 + fl);

    // The searches on the first line land on the placed markers.
    lemma_find_exact(c1, fm, sl);
    lemma_find_exact(c1, bm, sl + 7 + fl);

    // Format of the first line: the window after FORMAT: up to the
    // BITRATE: marker is exactly the format segment.
    let start1 = sl + 7;
    let rest1 = c1.subrange(start1, c1.len() as int);
    lemma_matches_shift(c1, start1, c1.len() as int, bm, fl);
    assert forall|q: int| 0 <= q < fl implies !matches_at(rest1, bm, q) by {
        lemma_matches_shift(c1, start1, c1.len() as int, bm, q);
    }
    lemma_find_exact(rest1, bm, fl);
    assert(c1.subrange(start1, start1 + fl) =~= f);
    assert(spec_format(c1) == spec_trim(f));

    // Bitrate of the first line: everything after BITRATE: is the
    // bitrate segment.
    assert(c1.subrange(sl + 7 + fl + 8, c1.len() as int) =~= b);

    // Song of the first line: the first marker is FORMAT: at the end
    // of the song segment.
    assert(first_marker(c1) == sl);
    assert(c1.subrange(0, sl) =~= s);

    // The searches on the swapped line land on the placed markers.
    lemma_find_exact(c2, bm, sl);
    lemma_find_exact(c2, fm, sl + 8 + bl);

    // Format of the swapped line: after FORMAT: no BITRATE: marker
    // follows, so the format runs to the end of the line, and that
    // tail is exactly the format segment.
    let start2 = sl + 8 + bl + 7;
    let rest2 = c2.subrange(start2, c2.len() as int);
    assert forall|q: int| !matches_at(rest2, bm, q) by {
        if 0 <= q && q + 8 <= c2.len() - start2 {
            lemma_matches_shift(c2, start2, c2.len() as int, bm, q);
        }
    }
    lemma_find_none(rest2, bm);
    assert(c2.subrange(start2, c2.len() as int) =~= f);
    assert(spec_format(c2) == spec_trim(f));

    // Song of the swapped line: the first marker is BITRATE: at the
    // end of the song segment.
    assert(first_marker(c2) == sl);
    assert(c2.subrange(0, sl) =~= s);
}

/// A content line without any marker: both fields fall back to
/// "Unknown" and the whole trimmed line is the song, or no song when
/// nothing is left after trimming.
pub proof fn lemma_no_markers(c: Seq<char>)
    requires
        spec_find(c, "FORMAT:"@) is None,
        spec_find(c, "BITRATE:"@) is None,
    ensures
        spec_format(c) == "Unknown"@,
        spec_bitrate(c) == "Unknown"@,
        spec_song(c) == (if spec_trim(c).len() == 0 {
            Option::<Seq<char>>::None
        } else {
            Some(spec_trim(c))
        }),
{
    assert(c.subrange(0, c.len() as int) =~= c);
}

/// A blank content line yields no song.
pub proof fn lemma_blank_line_no_song(c: Seq<char>)
    requires
        forall|k: int| 0 <= k < c.len() ==> is_space_char(#[trigger] c[k]),
    ensures
        spec_song(c) is None,
{
    lemma_find_some_bounds(c, "FORMAT:"@);
    lemma_find_some_bounds(c, "BITRATE:"@);
    let m = first_marker(c);
    assert(0 <= m <= c.len());
    let prefix = c.subrange(0, m);
    assert(forall|k: int| 0 <= k < prefix.len() ==> is_space_char(#[trigger] prefix[k]));
    lemma_trim_all_space(prefix);
}

impl StreamInfo {
    /// Overwrites the format, bitrate and song with freshly parsed
    /// fields; the station name is untouched.
    pub fn apply_metadata(&mut self, m: ParsedMetadata)
        ensures
            *final(self) == (StreamInfo {
                format: m.format,
                bitrate: m.bitrate,
                current_song: m.song,
                station_name: old(self).station_name,
            }),
    {
        self.format = m.format;
        self.bitrate = m.bitrate;
        self.current_song = m.song;
    }
}

/// Applies one line of decoder output to the stream information:
/// status lines overwrite the parsed fields, any other line changes
/// nothing.
pub fn update_stream_info(info: &mut StreamInfo, line: &str)
    ensures
        matches_at(line@, "STATUS:"@, 0) ==> {
            &&& final(info).format@ == spec_format(strip_status(line@))
            &&& final(info).bitrate@ == spec_bitrate(strip_status(line@))
            &&& (final(info).current_song is Some <==> spec_song(strip_status(line@)) is Some)
            &&& (final(info).current_song matches Some(s) ==> spec_song(strip_status(line@))
                == Some(s@))
            &&& final(info).station_name == old(info).station_name
        },
        !matches_at(line@, "STATUS:"@, 0) ==> *final(info) == *old(info),
{
    match parse_status_line(line) {
        Some(m) => info.apply_metadata(m),
        None => {},
    }
}

} // verus!
