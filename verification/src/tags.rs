//! Metadata of a tagged track, read best-effort: the id3 crate parses the
//! raw bytes behind trusted wrappers, and the informational lines the player
//! prints for a tag are composed by verified code with an exact contract.
//! Each field the parser extracts is a function of the bytes alone; the
//! names below stand for those results, and `read_tag_lines` promises its
//! lines exactly in terms of them.
use vstd::prelude::*;
use vstd::string::StringExecFns;
use id3::TagLike;
use crate::paths::{is_mp3_name, is_mp3_name_spec};
use crate::progress::{dec_digits, push_dec};

verus! {

/// What reading metadata for a named file yields: the format carries no
/// tags, the tags are unreadable (informational only, never an error), or
/// the composed report lines.
pub enum TagOutcome {
    NotTagged,
    Unreadable,
    Lines(Vec<String>),
}

/// A parsed metadata tag of the id3 crate, opaque to the verifier.
#[verifier::external_type_specification]
#[verifier::external_body]
pub struct ExTag(id3::Tag);

/// The bytes hold a readable tag: what id3::Tag::read_from2 accepts.
pub uninterp spec fn tag_readable(bytes: Seq<u8>) -> bool;

/// The title text the tag in these bytes carries, when present.
pub uninterp spec fn title_of(bytes: Seq<u8>) -> Option<Seq<char>>;

/// The artist text the tag in these bytes carries, when present.
pub uninterp spec fn artist_of(bytes: Seq<u8>) -> Option<Seq<char>>;

/// The album text the tag in these bytes carries, when present.
pub uninterp spec fn album_of(bytes: Seq<u8>) -> Option<Seq<char>>;

/// The year number the tag in these bytes carries, when present.
pub uninterp spec fn year_of(bytes: Seq<u8>) -> Option<int>;

/// The genre text the tag in these bytes carries, when present.
pub uninterp spec fn genre_of(bytes: Seq<u8>) -> Option<Seq<char>>;

/// The track number the tag in these bytes carries, when present.
pub uninterp spec fn track_of(bytes: Seq<u8>) -> Option<int>;

/// The comment texts the tag in these bytes carries, in tag order.
pub uninterp spec fn comments_of(bytes: Seq<u8>) -> Seq<Seq<char>>;

/// The view of an optional text.
pub open spec fn view_opt(o: Option<String>) -> Option<Seq<char>> {
    match o {
        Some(s) => Some(s@),
        None => None,
    }
}

/// The value of an optional year as a mathematical integer.
pub open spec fn view_opt_year(o: Option<i32>) -> Option<int> {
    match o {
        Some(y) => Some(y as int),
        None => None,
    }
}

/// The value of an optional track number as a mathematical integer.
pub open spec fn view_opt_track(o: Option<u32>) -> Option<int> {
    match o {
        Some(t) => Some(t as int),
        None => None,
    }
}

/// A parsed tag together with the ghost record of the bytes it was read
/// from. Built only by `open_tag`, so the ghost field always names the
/// tag's true source.
struct TagHandle {
    tag: id3::Tag,
    loaded: Ghost<Seq<u8>>,
}

/// Relies on id3::Tag::read_from2: parses a tag from the bytes of a file,
/// detecting the container format by its header; `None` exactly when no
/// readable tag is present, which depends on the bytes alone.
#[verifier::external_body]
fn read_tag(bytes: &Vec<u8>) -> (r: Option<id3::Tag>)
    ensures
        r is Some <==> tag_readable(bytes@),
{
    id3::Tag::read_from2(std::io::Cursor::new(bytes.as_slice())).ok()
}

/// Parse the tag held in the bytes, keeping their ghost record with it.
fn open_tag(bytes: &Vec<u8>) -> (r: Option<TagHandle>)
    ensures
        r is Some <==> tag_readable(bytes@),
        r matches Some(h) ==> h.loaded@ == bytes@,
{
    match read_tag(bytes) {
        Some(tag) => Some(TagHandle { tag, loaded: Ghost(bytes@) }),
        None => None,
    }
}

/// Relies on id3::TagLike::title: the tag's title text, a function of the
/// tag's source bytes.
#[verifier::external_body]
fn tag_title(h: &TagHandle) -> (r: Option<String>)
    ensures
        view_opt(r) == title_of(h.loaded@),
{
    match h.tag.title() {
        Some(s) => Some(s.to_string()),
        None => None,
    }
}

/// Relies on id3::TagLike::artist: the tag's artist text.
#[verifier::external_body]
fn tag_artist(h: &TagHandle) -> (r: Option<String>)
    ensures
        view_opt(r) == artist_of(h.loaded@),
{
    match h.tag.artist() {
        Some(s) => Some(s.to_string()),
        None => None,
    }
}

/// Relies on id3::TagLike::album: the tag's album text.
#[verifier::external_body]
fn tag_album(h: &TagHandle) -> (r: Option<String>)
    ensures
        view_opt(r) == album_of(h.loaded@),
{
    match h.tag.album() {
        Some(s) => Some(s.to_string()),
        None => None,
    }
}

/// Relies on id3::TagLike::year: the tag's year number.
#[verifier::external_body]
fn tag_year(h: &TagHandle) -> (r: Option<i32>)
    ensures
        view_opt_year(r) == year_of(h.loaded@),
{
    h.tag.year()
}

/// Relies on id3::TagLike::genre: the tag's genre text.
#[verifier::external_body]
fn tag_genre(h: &TagHandle) -> (r: Option<String>)
    ensures
        view_opt(r) == genre_of(h.loaded@),
{
    match h.tag.genre() {
        Some(s) => Some(s.to_string()),
        None => None,
    }
}

/// Relies on id3::TagLike::track: the tag's track number.
#[verifier::external_body]
fn tag_track(h: &TagHandle) -> (r: Option<u32>)
    ensures
        view_opt_track(r) == track_of(h.loaded@),
{
    h.tag.track()
}

/// Relies on id3::Tag::comments: the text of each comment frame, in the
/// tag's order; the closure only picks a field.
#[verifier::external_body]
fn tag_comments(h: &TagHandle) -> (r: Vec<String>)
    ensures
        r@.map_values(|c: String| c@) == comments_of(h.loaded@),
{
    h.tag.comments().map(|c| c.text.clone()).collect()
}

/// Decimal rendering of a possibly negative number.
pub open spec fn signed_digits(n: int) -> Seq<char> {
    if n < 0 {
        seq!['-'] + dec_digits(-n)
    } else {
        dec_digits(n)
    }
}

/// Zero lines or one labeled line for an optional text.
pub open spec fn opt_entry(label: Seq<char>, v: Option<Seq<char>>) -> Seq<Seq<char>> {
    match v {
        Some(s) => seq![label + s],
        None => Seq::empty(),
    }
}

/// The labeled lines for the six scalar fields, in the order they are
/// reported: title, artist, album, year, genre, track.
pub open spec fn tag_lines_head(
    title: Option<Seq<char>>,
    artist: Option<Seq<char>>,
    album: Option<Seq<char>>,
    year: Option<int>,
    genre: Option<Seq<char>>,
    track: Option<int>,
) -> Seq<Seq<char>> {
    opt_entry("  Title : "@, title) + opt_entry("  Artist: "@, artist) + opt_entry(
        "  Album : "@,
        album,
    ) + (match year {
        Some(y) => seq!["  Year  : "@ + signed_digits(y)],
        None => Seq::empty(),
    }) + opt_entry("  Genre : "@, genre) + (match track {
        Some(t) => seq!["  Track : "@ + dec_digits(t)],
        None => Seq::empty(),
    })
}

/// One labeled line per comment, in order.
pub open spec fn comment_lines(comments: Seq<Seq<char>>) -> Seq<Seq<char>> {
    comments.map_values(|c: Seq<char>| "  Comment: "@ + c)
}

/// All lines reported for a tag.
pub open spec fn tag_lines_spec(
    title: Option<Seq<char>>,
    artist: Option<Seq<char>>,
    album: Option<Seq<char>>,
    year: Option<int>,
    genre: Option<Seq<char>>,
    track: Option<int>,
    comments: Seq<Seq<char>>,
) -> Seq<Seq<char>> {
    tag_lines_head(title, artist, album, year, genre, track) + comment_lines(comments)
}

/// Append the decimal rendering of a possibly negative number.
fn push_signed(out: &mut String, n: i32)
    ensures
        final(out)@ == old(out)@ + signed_digits(n as int),
{
    if n < 0 {
        proof {
            reveal_strlit("-");
        }
        out.append("-");
        let magnitude: u64 = (-(n as i64)) as u64;
        push_dec(out, magnitude);
        proof {
            assert(out@ =~= old(out)@ + signed_digits(n as int));
        }
    } else {
        push_dec(out, n as u64);
    }
}

/// Compose the informational lines for the given tag fields, exactly the
/// lines `tag_lines_spec` names, in that order.
#[verifier::rlimit(60)]
pub fn tag_lines(
    title: Option<String>,
    artist: Option<String>,
    album: Option<String>,
    year: Option<i32>,
    genre: Option<String>,
    track: Option<u32>,
    comments: &Vec<String>,
) -> (r: Vec<String>)
    ensures
        r@.map_values(|s: String| s@) == tag_lines_spec(
            view_opt(title),
            view_opt(artist),
            view_opt(album),
            view_opt_year(year),
            view_opt(genre),
            view_opt_track(track),
            comments@.map_values(|c: String| c@),
        ),
{
    let ghost head = tag_lines_head(
        view_opt(title),
        view_opt(artist),
        view_opt(album),
        view_opt_year(year),
        view_opt(genre),
        view_opt_track(track),
    );
    let mut out: Vec<String> = Vec::new();
    match title {
        Some(t) => {
            let mut line = String::from_str("  Title : ");
            line.append(t.as_str());
            out.push(line);
        },
        None => {},
    }
    match artist {
        Some(t) => {
            let mut line = String::from_str("  Artist: ");
            line.append(t.as_str());
            out.push(line);
        },
        None => {},
    }
    match album {
        Some(t) => {
            let mut line = String::from_str("  Album : ");
            line.append(t.as_str());
            out.push(line);
        },
        None => {},
    }
    match year {
        Some(y) => {
            let mut line = String::from_str("  Year  : ");
            push_signed(&mut line, y);
            out.push(line);
        },
        None => {},
    }
    match genre {
        Some(t) => {
            let mut line = String::from_str("  Genre : ");
            line.append(t.as_str());
            out.push(line);
        },
        None => {},
    }
    match track {
        Some(t) => {
            let mut line = String::from_str("  Track : ");
            push_dec(&mut line, t as u64);
            out.push(line);
        },
        None => {},
    }
    proof {
        assert(out@.map_values(|s: String| s@) =~~= head);
    }
    let mut k: usize = 0;
    while k < comments.len()
        invariant
            k <= comments@.len(),
            out@.map_values(|s: String| s@) == head + comment_lines(
                comments@.map_values(|c: String| c@).take(k as int),
            ),
        decreases comments@.len() - k,
    {
        let mut line = String::from_str("  Comment: ");
        line.append(comments[k].as_str());
        let ghost prev = out@;
        out.push(line);
        k = k + 1;
        proof {
            let cviews = comments@.map_values(|c: String| c@);
            assert(out@ == prev.push(line));
            assert(out@.map_values(|s: String| s@) =~~= prev.map_values(|s: String| s@).push(
                line@,
            ));
            assert(cviews.take(k as int) =~= cviews.take(k - 1).push(cviews[k - 1]));
            assert(comment_lines(cviews.take(k as int)) =~~= comment_lines(
                cviews.take(k - 1),
            ).push("  Comment: "@ + cviews[k - 1]));
            assert(line@ == "  Comment: "@ + cviews[k - 1]);
            assert(out@.map_values(|s: String| s@) =~~= head + comment_lines(
                cviews.take(k as int),
            ));
        }
    }
    proof {
        assert(comments@.map_values(|c: String| c@).take(comments@.len() as int)
            =~= comments@.map_values(|c: String| c@));
        assert(out@.map_values(|s: String| s@) =~~= head + comment_lines(
            comments@.map_values(|c: String| c@),
        ));
    }
    out
}

/// Read the metadata lines for a tagged track from its raw bytes: `None`
/// exactly when the bytes hold no readable tag, otherwise the lines
/// `tag_lines_spec` names for the fields the tag carries.
pub fn read_tag_lines(bytes: &Vec<u8>) -> (r: Option<Vec<String>>)
    ensures
        r is Some <==> tag_readable(bytes@),
        r matches Some(lines) ==> lines@.map_values(|s: String| s@) == tag_lines_spec(
            title_of(bytes@),
            artist_of(bytes@),
            album_of(bytes@),
            year_of(bytes@),
            genre_of(bytes@),
            track_of(bytes@),
            comments_of(bytes@),
        ),
{
    match open_tag(bytes) {
        Some(handle) => {
            let title = tag_title(&handle);
            let artist = tag_artist(&handle);
            let album = tag_album(&handle);
            let year = tag_year(&handle);
            let genre = tag_genre(&handle);
            let track = tag_track(&handle);
            let comments = tag_comments(&handle);
            Some(tag_lines(title, artist, album, year, genre, track, &comments))
        },
        None => None,
    }
}

/// The whole metadata step for a file: tags are attempted only for the one
/// tagged format this player knows, judged by the file's name; within it,
/// unreadable tags are informational, and readable ones yield exactly the
/// lines `tag_lines_spec` names.
pub fn tag_report(name: &Vec<u8>, bytes: &Vec<u8>) -> (r: TagOutcome)
    ensures
        r is NotTagged <==> !is_mp3_name_spec(name@),
        r is Unreadable <==> (is_mp3_name_spec(name@) && !tag_readable(bytes@)),
        r is Lines <==> (is_mp3_name_spec(name@) && tag_readable(bytes@)),
        r matches TagOutcome::Lines(lines) ==> lines@.map_values(|s: String| s@)
            == tag_lines_spec(
            title_of(bytes@),
            artist_of(bytes@),
            album_of(bytes@),
            year_of(bytes@),
            genre_of(bytes@),
            track_of(bytes@),
            comments_of(bytes@),
        ),
{
    if !is_mp3_name(name) {
        return TagOutcome::NotTagged;
    }
    match read_tag_lines(bytes) {
        Some(lines) => TagOutcome::Lines(lines),
        None => TagOutcome::Unreadable,
    }
}

} // verus!
