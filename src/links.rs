//! Handlers that answer with a link: a video and a random point on a map.

use vstd::prelude::*;
use crate::answers::{known_video_table, known_videos};
use crate::chance::{index_below, int_between, ratio};
use crate::handlers::entry;
use crate::text::{chars_of, concat, digit, digit_char, digits, push_digits, string_of};

verus! {

pub const VIDEO_PREFIX: &'static str = "https://youtu.be/";

/// The symbols of a video id; the last two may not end one.
pub const VIDEO_ALPHABET: &'static str = "ABCDEFGHIJKLMNOPQRSTUVWXYZabcdefghijklmnopqrstuvwxyz0123456789_-";

/// How many of the alphabet's symbols may end a video id.
pub const ID_END_SYMBOLS: usize = 62;

pub const VIDEO_ID_LEN: usize = 11;

/// A made-up video id: eleven symbols of the alphabet, not ending in `_` or `-`.
pub open spec fn random_id_ok(id: Seq<char>) -> bool {
    &&& id.len() == VIDEO_ID_LEN
    &&& forall|i: int| 0 <= i < id.len() ==> VIDEO_ALPHABET@.contains(#[trigger] id[i])
    &&& id.last() != '_'
    &&& id.last() != '-'
}

/// The ids that the video handler may link to.
pub open spec fn video_id_ok(id: Seq<char>) -> bool {
    known_videos().contains(id) || random_id_ok(id)
}

/// What the video handler may answer.
pub open spec fn video_link_ok(s: Seq<char>) -> bool {
    exists|id: Seq<char>| video_id_ok(id) && s == VIDEO_PREFIX@ + id
}

/// The link to the video `id`.
pub fn video_link(id: &Vec<char>) -> (r: String)
    ensures
        r@ == VIDEO_PREFIX@ + id@,
{
    string_of(&concat(&chars_of(VIDEO_PREFIX), id))
}

/// The video id that the draws give: the known id `known` where
/// `from_known`, else the alphabet's symbols at the indices `symbols`,
/// followed by its symbol at `last`.
pub open spec fn drawn_id(from_known: bool, known: int, symbols: Seq<usize>, last: int) -> Seq<
    char,
> {
    if from_known {
        known_videos()[known]
    } else {
        Seq::new(symbols.len(), |i: int| VIDEO_ALPHABET@[symbols[i] as int]).push(
            VIDEO_ALPHABET@[last],
        )
    }
}

/// The video handler's link for its draws. The last symbol of a made-up id
/// is drawn among those that may end one, which gives each of them the
/// chance that drawing again until one of them comes would.
pub fn rick_link(from_known: bool, known: usize, symbols: &Vec<usize>, last: usize) -> (r: String)
    requires
        known < known_videos().len(),
        symbols.len() == VIDEO_ID_LEN - 1,
        forall|i: int| 0 <= i < symbols.len() ==> #[trigger] symbols@[i] < VIDEO_ALPHABET@.len(),
        last < ID_END_SYMBOLS,
    ensures
        r@ == VIDEO_PREFIX@ + drawn_id(from_known, known as int, symbols@, last as int),
        video_id_ok(drawn_id(from_known, known as int, symbols@, last as int)),
{
    if from_known {
        let id = chars_of(entry(&known_video_table(), known));
        return video_link(&id);
    }
    let alphabet = chars_of(VIDEO_ALPHABET);
    proof {
        reveal_strlit("ABCDEFGHIJKLMNOPQRSTUVWXYZabcdefghijklmnopqrstuvwxyz0123456789_-");
    }
    assert(alphabet.len() == 64);
    let mut id: Vec<char> = Vec::new();
    for i in 0..symbols.len()
        invariant
            alphabet@ == VIDEO_ALPHABET@,
            alphabet.len() == 64,
            forall|j: int| 0 <= j < symbols.len() ==> #[trigger] symbols@[j] < 64,
            id@ == Seq::new(i as nat, |j: int| VIDEO_ALPHABET@[symbols@[j] as int]),
    {
        id.push(alphabet[symbols[i]]);
        assert(id@ =~= Seq::new((i + 1) as nat, |j: int| VIDEO_ALPHABET@[symbols@[j] as int]));
    }
    assert(forall|j: int| 0 <= j < 62 ==> alphabet@[j] != '_' && alphabet@[j] != '-');
    id.push(alphabet[last]);
    let ghost d = drawn_id(from_known, known as int, symbols@, last as int);
    assert(id@ =~= d);
    assert forall|j: int| 0 <= j < d.len() implies VIDEO_ALPHABET@.contains(#[trigger] d[j]) by {
        if j < symbols.len() {
            assert(VIDEO_ALPHABET@[symbols@[j] as int] == d[j]);
        } else {
            assert(VIDEO_ALPHABET@[last as int] == d[j]);
        }
    }
    video_link(&id)
}

/// A link to a video: half of the time one of the known ones, else a made-up
/// id.
pub fn rick() -> (r: String)
    ensures
        video_link_ok(r@),
{
    proof {
        reveal_strlit("ABCDEFGHIJKLMNOPQRSTUVWXYZabcdefghijklmnopqrstuvwxyz0123456789_-");
    }
    let from_known = ratio(5, 10);
    let known = index_below(known_video_table().len());
    let mut symbols: Vec<usize> = Vec::new();
    for i in 0..VIDEO_ID_LEN - 1
        invariant
            VIDEO_ALPHABET@.len() == 64,
            symbols.len() == i,
            forall|j: int| 0 <= j < symbols.len() ==> #[trigger] symbols@[j] < 64,
    {
        symbols.push(index_below(64));
    }
    let last = index_below(ID_END_SYMBOLS);
    rick_link(from_known, known, &symbols, last)
}

/// Coordinates are whole millionths of a degree.
pub const MICRO: i64 = 1000000;

pub const LAT_MAX: i64 = 90000000;

pub const LON_MAX: i64 = 180000000;

pub const MAP_PREFIX: &'static str = "https://www.google.com/maps/place/";

/// The six decimals of a fraction given in millionths.
pub open spec fn six_decimals(n: nat) -> Seq<char> {
    seq![
        digit_char((n / 100000) % 10),
        digit_char((n / 10000) % 10),
        digit_char((n / 1000) % 10),
        digit_char((n / 100) % 10),
        digit_char((n / 10) % 10),
        digit_char(n % 10),
    ]
}

/// A coordinate in millionths of a degree: its magnitude with six decimals,
/// then the hemisphere letter, `pos` for zero and above, `neg` below.
pub open spec fn coordinate(v: int, pos: char, neg: char) -> Seq<char> {
    let a = if v < 0 {
        -v
    } else {
        v
    };
    digits((a / MICRO as int) as nat) + seq!['.'] + six_decimals((a % MICRO as int) as nat) + seq![
        if v >= 0 {
            pos
        } else {
            neg
        },
    ]
}

/// What the map handler may answer.
pub open spec fn map_link_ok(s: Seq<char>) -> bool {
    exists|lat: int, lon: int|
        -LAT_MAX <= lat <= LAT_MAX && -LON_MAX <= lon <= LON_MAX && s == map_text(lat, lon)
}

/// The map link to a point.
pub open spec fn map_text(lat: int, lon: int) -> Seq<char> {
    MAP_PREFIX@ + coordinate(lat, 'N', 'S') + seq!['+'] + coordinate(lon, 'E', 'W')
}

fn push_coordinate(out: &mut Vec<char>, v: i64, pos: char, neg: char)
    requires
        -LON_MAX <= v <= LON_MAX,
    ensures
        final(out)@ == old(out)@ + coordinate(v as int, pos, neg),
{
    let a: u64 = if v < 0 {
        (-v) as u64
    } else {
        v as u64
    };
    let whole = a / (MICRO as u64);
    let frac = a % (MICRO as u64);
    push_digits(out, whole);
    out.push('.');
    out.push(digit((frac / 100000) % 10));
    out.push(digit((frac / 10000) % 10));
    out.push(digit((frac / 1000) % 10));
    out.push(digit((frac / 100) % 10));
    out.push(digit((frac / 10) % 10));
    out.push(digit(frac % 10));
    out.push(
        if v >= 0 {
            pos
        } else {
            neg
        },
    );
    assert(final(out)@ =~= old(out)@ + coordinate(v as int, pos, neg));
}

/// The map link to the point at `lat`, `lon`, in millionths of a degree.
pub fn map_link(lat: i64, lon: i64) -> (r: String)
    requires
        -LAT_MAX <= lat <= LAT_MAX,
        -LON_MAX <= lon <= LON_MAX,
    ensures
        r@ == map_text(lat as int, lon as int),
{
    let mut out = chars_of(MAP_PREFIX);
    push_coordinate(&mut out, lat, 'N', 'S');
    out.push('+');
    push_coordinate(&mut out, lon, 'E', 'W');
    assert(out@ =~= map_text(lat as int, lon as int));
    string_of(&out)
}

/// A link to a uniformly drawn point on the map.
pub fn dart() -> (r: String)
    ensures
        map_link_ok(r@),
{
    let lat = int_between(-LAT_MAX, LAT_MAX);
    let lon = int_between(-LON_MAX, LON_MAX);
    map_link(lat, lon)
}

} // verus!
