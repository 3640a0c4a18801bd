//! What the tag reader decides once a file's tags are read: which title,
//! artist and album to keep, which picture is the cover, how long the track
//! is, and what goes into the record of the track.

use vstd::prelude::*;
use vstd::string::*;
use crate::models::ExtractedTrack;
use crate::text::{is_blank, is_blank_spec, lowercase, str_to_lowercase};

verus! {

/// The tags that the reader looks at.
#[derive(Clone, Copy, Debug, PartialEq, Eq, Structural)]
pub enum TagKey {
    TrackTitle,
    Artist,
    AlbumArtist,
    Album,
    /// Any other tag.
    Other,
}

/// One tag of a file.
#[derive(Debug)]
pub struct Tag {
    pub key: TagKey,
    pub value: String,
}

/// The three names taken from a file's tags.
#[derive(Debug)]
pub struct TagSelection {
    pub title: String,
    pub artist: String,
    pub album: String,
}

pub open spec fn unknown_title() -> Seq<char> {
    "Unknown Title"@
}

pub open spec fn unknown_artist() -> Seq<char> {
    "Unknown Artist"@
}

pub open spec fn unknown_album() -> Seq<char> {
    "Unknown Album"@
}

/// How an optional text reads in contracts.
pub open spec fn text_of(text: Option<String>) -> Option<Seq<char>> {
    match text {
        Some(text) => Some(text@),
        None => None,
    }
}

/// The value of the last title tag; without one, the unknown title.
pub open spec fn selected_title(tags: Seq<Tag>) -> Seq<char>
    decreases tags.len(),
{
    if tags.len() == 0 {
        unknown_title()
    } else if tags.last().key == TagKey::TrackTitle {
        tags.last().value@
    } else {
        selected_title(tags.drop_last())
    }
}

/// Whether the tag names the artist.
pub open spec fn names_artist(key: TagKey) -> bool {
    key == TagKey::Artist || key == TagKey::AlbumArtist
}

/// The value of the last artist or album-artist tag that is not marked as
/// blank; without one, the unknown artist. `blank` marks the tags in order; a
/// tag past the last mark is unmarked.
pub open spec fn selected_artist_by(tags: Seq<Tag>, blank: Seq<bool>) -> Seq<char>
    decreases tags.len(),
{
    if tags.len() == 0 {
        unknown_artist()
    } else if names_artist(tags.last().key) && !(tags.len() - 1 < blank.len() && blank[tags.len()
        - 1]) {
        tags.last().value@
    } else {
        selected_artist_by(tags.drop_last(), blank)
    }
}

/// Which of the tags' values are blank.
pub open spec fn blankness(tags: Seq<Tag>) -> Seq<bool> {
    Seq::new(tags.len(), |i: int| is_blank_spec(tags[i].value@))
}

/// The value of the last artist or album-artist tag that is not blank;
/// without one, the unknown artist.
pub open spec fn selected_artist(tags: Seq<Tag>) -> Seq<char> {
    selected_artist_by(tags, blankness(tags))
}

/// The value of the last album tag; without one, the unknown album.
pub open spec fn selected_album(tags: Seq<Tag>) -> Seq<char>
    decreases tags.len(),
{
    if tags.len() == 0 {
        unknown_album()
    } else if tags.last().key == TagKey::Album {
        tags.last().value@
    } else {
        selected_album(tags.drop_last())
    }
}

/// Picks title, artist and album from a file's tags, in the order in which
/// the file holds them: a later tag replaces an earlier one, but an artist
/// marked as blank replaces nothing. `blank` marks the tags in order; a tag
/// past the last mark is unmarked.
pub fn select_marked(tags: &Vec<Tag>, blank: &Vec<bool>) -> (names: TagSelection)
    ensures
        names.title@ == selected_title(tags@),
        names.artist@ == selected_artist_by(tags@, blank@),
        names.album@ == selected_album(tags@),
{
    let mut title = String::from_str("Unknown Title");
    let mut artist = String::from_str("Unknown Artist");
    let mut album = String::from_str("Unknown Album");
    let mut i: usize = 0;
    while i < tags.len()
        invariant
            i <= tags.len(),
            title@ == selected_title(tags@.take(i as int)),
            artist@ == selected_artist_by(tags@.take(i as int), blank@),
            album@ == selected_album(tags@.take(i as int)),
        decreases tags.len() - i,
    {
        let tag = &tags[i];
        proof {
            let seen = tags@.take(i + 1);
            assert(seen.drop_last() =~= tags@.take(i as int));
            assert(seen.last() == tags@[i as int]);
        }
        match tag.key {
            TagKey::TrackTitle => {
                title = tag.value.clone();
            },
            TagKey::Artist | TagKey::AlbumArtist => {
                if !(i < blank.len() && blank[i]) {
                    artist = tag.value.clone();
                }
            },
            TagKey::Album => {
                album = tag.value.clone();
            },
            TagKey::Other => {},
        }
        i = i + 1;
    }
    proof {
        assert(tags@.take(tags.len() as int) =~= tags@);
    }
    TagSelection { title, artist, album }
}

/// Picks title, artist and album from a file's tags, in the order in which
/// the file holds them: a later tag replaces an earlier one, but a blank
/// artist replaces nothing.
pub fn select_tags(tags: &Vec<Tag>) -> (names: TagSelection)
    ensures
        names.title@ == selected_title(tags@),
        names.artist@ == selected_artist(tags@),
        names.album@ == selected_album(tags@),
{
    let mut blank: Vec<bool> = Vec::new();
    let mut i: usize = 0;
    while i < tags.len()
        invariant
            i <= tags.len(),
            blank@.len() == i,
            forall|j: int| 0 <= j < i ==> blank@[j] == is_blank_spec(tags@[j].value@),
        decreases tags.len() - i,
    {
        blank.push(is_blank(tags[i].value.as_str()));
        i = i + 1;
    }
    proof {
        assert(blank@ =~= blankness(tags@));
    }
    select_marked(tags, &blank)
}

/// The title to show, for a title known to be blank or not: the tagged one,
/// or the file's stem where the tags gave a blank title or none; the unknown
/// title where the file has no stem either.
pub open spec fn title_or_stem_by(title: Seq<char>, blank: bool, file_stem: Option<Seq<char>>) -> Seq<
    char,
> {
    if blank || title == unknown_title() {
        match file_stem {
            Some(stem) => stem,
            None => unknown_title(),
        }
    } else {
        title
    }
}

/// The title to show: the tagged one, or the file's stem where the tags gave
/// a blank title or none; the unknown title where the file has no stem
/// either.
pub open spec fn title_or_stem(title: Seq<char>, file_stem: Option<Seq<char>>) -> Seq<char> {
    title_or_stem_by(title, is_blank_spec(title), file_stem)
}

/// The title to show, for a title known to be blank or not.
pub fn fallback_title_marked(title: String, blank: bool, file_stem: Option<String>) -> (shown:
    String)
    ensures
        shown@ == title_or_stem_by(title@, blank, text_of(file_stem)),
{
    let unknown = String::from_str("Unknown Title");
    if blank || title == unknown {
        match file_stem {
            Some(stem) => stem,
            None => unknown,
        }
    } else {
        title
    }
}

/// The title to show: the tagged one, or the file's stem where the tags gave
/// a blank title or none.
pub fn fallback_title(title: String, file_stem: Option<String>) -> (shown: String)
    ensures
        shown@ == title_or_stem(title@, text_of(file_stem)),
{
    let blank = is_blank(title.as_str());
    fallback_title_marked(title, blank, file_stem)
}

/// The format of a file whose extension has been put in lower case: that
/// extension, or `unknown` where the file has none.
pub open spec fn format_or_unknown_spec(lowered: Option<Seq<char>>) -> Seq<char> {
    match lowered {
        Some(extension) => extension,
        None => "unknown"@,
    }
}

/// The format of a file: its extension in lower case, or `unknown` where it
/// has none.
pub open spec fn format_of(extension: Option<Seq<char>>) -> Seq<char> {
    format_or_unknown_spec(
        match extension {
            Some(extension) => Some(lowercase(extension)),
            None => None,
        },
    )
}

/// The format of a file whose extension has been put in lower case.
pub fn format_or_unknown(lowered: Option<String>) -> (format: String)
    ensures
        format@ == format_or_unknown_spec(text_of(lowered)),
{
    match lowered {
        Some(extension) => extension,
        None => String::from_str("unknown"),
    }
}

/// The format of a file: its extension in lower case, or `unknown` where it
/// has none.
pub fn file_format(extension: &Option<String>) -> (format: String)
    ensures
        format@ == format_of(text_of(*extension)),
{
    let lowered = match extension {
        Some(extension) => Some(str_to_lowercase(extension.as_str())),
        None => None,
    };
    format_or_unknown(lowered)
}

/// What a picture in a file's tags shows.
#[derive(Clone, Copy, Debug, PartialEq, Eq, Structural)]
pub enum PictureKind {
    CoverFront,
    /// Anything else.
    Other,
}

/// A picture from a file's tags.
#[derive(Debug)]
pub struct Picture {
    pub kind: PictureKind,
    pub mime: Option<String>,
    pub data: Vec<u8>,
}

/// How many pictures stand before the first front cover; all of them where
/// none is a front cover.
pub open spec fn before_front_cover(pictures: Seq<Picture>) -> nat
    decreases pictures.len(),
{
    if pictures.len() == 0 || pictures.first().kind == PictureKind::CoverFront {
        0
    } else {
        1 + before_front_cover(pictures.drop_first())
    }
}

/// The place of the picture to use as the cover: the first front cover, or
/// the first picture where none is a front cover; none where there are no
/// pictures.
pub open spec fn cover_choice(pictures: Seq<Picture>) -> Option<usize> {
    if pictures.len() == 0 {
        None
    } else if before_front_cover(pictures) < pictures.len() {
        Some(before_front_cover(pictures) as usize)
    } else {
        Some(0)
    }
}

/// Pictures that are no front covers, `count` of them, followed by a front
/// cover or by nothing, are those before the first front cover.
pub proof fn lemma_before_front_cover(pictures: Seq<Picture>, count: nat)
    requires
        count <= pictures.len(),
        forall|i: int| 0 <= i < count ==> (#[trigger] pictures[i]).kind != PictureKind::CoverFront,
        count == pictures.len() || pictures[count as int].kind == PictureKind::CoverFront,
    ensures
        before_front_cover(pictures) == count,
    decreases count,
{
    if count > 0 {
        let rest = pictures.drop_first();
        assert forall|i: int| 0 <= i < count - 1 implies (#[trigger] rest[i]).kind
            != PictureKind::CoverFront by {
            assert(rest[i] == pictures[i + 1]);
        }
        lemma_before_front_cover(rest, (count - 1) as nat);
    }
}

pub fn choose_picture(pictures: &Vec<Picture>) -> (choice: Option<usize>)
    ensures
        choice == cover_choice(pictures@),
        choice is Some ==> choice->0 < pictures.len(),
{
    if pictures.len() == 0 {
        return None;
    }
    let mut i: usize = 0;
    while i < pictures.len()
        invariant
            i <= pictures.len(),
            forall|j: int| 0 <= j < i ==> (#[trigger] pictures@[j]).kind != PictureKind::CoverFront,
        decreases pictures.len() - i,
    {
        if pictures[i].kind == PictureKind::CoverFront {
            proof {
                lemma_before_front_cover(pictures@, i as nat);
            }
            return Some(i);
        }
        i = i + 1;
    }
    proof {
        lemma_before_front_cover(pictures@, pictures.len() as nat);
    }
    Some(0)
}

/// One packet of a file: the track it belongs to and how long it lasts, in
/// units of the track's time base.
#[derive(Clone, Copy, Debug, PartialEq, Eq, Structural)]
pub struct PacketSpan {
    pub track_id: u32,
    pub dur: u64,
}

/// The summed length of the packets of one track.
pub open spec fn playing_time(packets: Seq<PacketSpan>, track_id: u32) -> nat
    decreases packets.len(),
{
    if packets.len() == 0 {
        0
    } else {
        let counted: nat = if packets.last().track_id == track_id {
            packets.last().dur as nat
        } else {
            0
        };
        playing_time(packets.drop_last(), track_id) + counted
    }
}

/// Adds one packet to a running total, which stays at the largest number
/// once it is reached.
pub fn add_packet(total: u64, packet: PacketSpan, track_id: u32) -> (sum: u64)
    ensures
        sum as nat == if packet.track_id != track_id {
            total as nat
        } else if total + packet.dur <= u64::MAX {
            (total + packet.dur) as nat
        } else {
            u64::MAX as nat
        },
{
    if packet.track_id == track_id {
        total.saturating_add(packet.dur)
    } else {
        total
    }
}

/// The length of a track found by adding up its packets, for files that do
/// not say how long they are. The sum stops at the largest number.
pub fn total_duration(packets: &Vec<PacketSpan>, track_id: u32) -> (total: u64)
    ensures
        total as nat == if playing_time(packets@, track_id) <= u64::MAX {
            playing_time(packets@, track_id)
        } else {
            u64::MAX as nat
        },
{
    let mut total: u64 = 0;
    let mut i: usize = 0;
    while i < packets.len()
        invariant
            i <= packets.len(),
            total as nat == if playing_time(packets@.take(i as int), track_id) <= u64::MAX {
                playing_time(packets@.take(i as int), track_id)
            } else {
                u64::MAX as nat
            },
        decreases packets.len() - i,
    {
        proof {
            let seen = packets@.take(i + 1);
            assert(seen.drop_last() =~= packets@.take(i as int));
            assert(seen.last() == packets@[i as int]);
        }
        total = add_packet(total, packets[i], track_id);
        i = i + 1;
    }
    proof {
        assert(packets@.take(packets.len() as int) =~= packets@);
    }
    total
}

/// The length that stands for "not known".
pub const UNKNOWN_DURATION_MS: i64 = -1;

/// A length of time: whole seconds and the thousandths of the started one.
#[derive(Clone, Copy, Debug, PartialEq, Eq, Structural)]
pub struct TimeSpan {
    pub seconds: u64,
    pub millis: u16,
}

/// A length in milliseconds; "not known" for no length and for one that
/// does not fit.
pub open spec fn millis_of(length: Option<TimeSpan>) -> int {
    match length {
        Some(span) => if span.seconds * 1000 + span.millis <= i64::MAX {
            span.seconds * 1000 + span.millis
        } else {
            UNKNOWN_DURATION_MS as int
        },
        None => UNKNOWN_DURATION_MS as int,
    }
}

pub fn duration_millis(length: Option<TimeSpan>) -> (millis: i64)
    ensures
        millis == millis_of(length),
{
    match length {
        Some(span) => {
            if span.seconds <= 9_223_372_036_854_775 {
                let total: u64 = span.seconds * 1000 + span.millis as u64;
                if total <= 0x7fff_ffff_ffff_ffff {
                    total as i64
                } else {
                    UNKNOWN_DURATION_MS
                }
            } else {
                UNKNOWN_DURATION_MS
            }
        },
        None => UNKNOWN_DURATION_MS,
    }
}

/// A count of milliseconds as the catalog keeps it; one too large for the
/// catalog is kept as the largest.
pub fn clamp_millis(millis: u128) -> (kept: i64)
    ensures
        kept == if millis <= i64::MAX {
            millis as int
        } else {
            i64::MAX as int
        },
{
    if millis <= 0x7fff_ffff_ffff_ffff {
        millis as i64
    } else {
        i64::MAX
    }
}

/// A day as the decimal number `YYYYMMDD`.
pub fn date_stamp(year: u32, month: u32, day: u32) -> (stamp: i64)
    ensures
        stamp == year * 10000 + month * 100 + day,
{
    let y: i64 = year as i64;
    let m: i64 = month as i64;
    let d: i64 = day as i64;
    y * 10000 + m * 100 + d
}

/// A size in whole mebibytes, rounded down.
pub fn megabytes(bytes: u64) -> (size: i64)
    ensures
        size == bytes / 1_048_576,
{
    (bytes / 1_048_576) as i64
}

/// A picture embedded in a file, with its media type.
#[derive(Debug)]
pub struct Visual {
    pub data: Vec<u8>,
    pub mime: String,
}

/// What a decoder found in an audio file.
#[derive(Debug)]
pub struct MediaFacts {
    /// The file's name without its extension, where it has a name.
    pub file_stem: Option<String>,
    pub extension: Option<String>,
    pub file_size: i64,
    /// The tags, in the file's order.
    pub tags: Vec<Tag>,
    /// The embedded pictures, in the file's order.
    pub visuals: Vec<Visual>,
    /// The track's length, where the file or a scan of its packets gave one.
    pub length: Option<TimeSpan>,
    pub date_added: i64,
}

/// Makes the record of a track from what a decoder found in its file. The
/// names come from the tags, the title from the file's name where the tags
/// have none; the first embedded picture is the thumbnail.
pub fn extract_track_data(src_path: String, facts: MediaFacts) -> (track: ExtractedTrack)
    ensures
        track.file_path == src_path,
        track.title@ == title_or_stem(selected_title(facts.tags@), text_of(facts.file_stem)),
        track.artist@ == selected_artist(facts.tags@),
        track.album@ == selected_album(facts.tags@),
        track.duration_ms == millis_of(facts.length),
        track.file_format@ == format_of(text_of(facts.extension)),
        track.file_size == facts.file_size,
        track.date_added == facts.date_added,
        facts.visuals.len() == 0 ==> track.thumbnail_data is None && track.thumbnail_mime is None,
        facts.visuals.len() > 0 ==> track.thumbnail_data == Some(facts.visuals[0].data)
            && track.thumbnail_mime == Some(facts.visuals[0].mime),
{
    let MediaFacts { file_stem, extension, file_size, tags, visuals, length, date_added } = facts;
    let names = select_tags(&tags);
    let title = fallback_title(names.title, file_stem);
    let file_format = file_format(&extension);
    let mut visuals = visuals;
    let (thumbnail_data, thumbnail_mime) = if visuals.len() > 0 {
        let first = visuals.swap_remove(0);
        (Some(first.data), Some(first.mime))
    } else {
        (None, None)
    };
    ExtractedTrack {
        file_path: src_path,
        title,
        artist: names.artist,
        album: names.album,
        duration_ms: duration_millis(length),
        file_format,
        file_size,
        date_added,
        thumbnail_data,
        thumbnail_mime,
    }
}

/// What a tag reader found in an audio file.
#[derive(Debug)]
pub struct TaggedFacts {
    pub extension: Option<String>,
    pub size_bytes: u64,
    pub duration_millis: u128,
    pub title: Option<String>,
    pub artist: Option<String>,
    pub album: Option<String>,
    /// The pictures of the tag, in the tag's order.
    pub pictures: Vec<Picture>,
    pub date_added: i64,
}

/// A name as the record keeps it: empty where the tag has none.
pub open spec fn name_or_empty(name: Option<String>) -> Seq<char> {
    match name {
        Some(name) => name@,
        None => Seq::empty(),
    }
}

fn or_empty(name: Option<String>) -> (kept: String)
    ensures
        kept@ == name_or_empty(name),
{
    match name {
        Some(name) => name,
        None => String::new(),
    }
}

/// Makes the record of a track from what a tag reader found in its file. A
/// missing name is empty, the size is in mebibytes, and the thumbnail is the
/// front cover, or the first picture where there is no front cover.
pub fn extract_track_metadata(path: String, facts: TaggedFacts) -> (track: ExtractedTrack)
    ensures
        track.file_path == path,
        track.title@ == name_or_empty(facts.title),
        track.artist@ == name_or_empty(facts.artist),
        track.album@ == name_or_empty(facts.album),
        track.duration_ms == if facts.duration_millis <= i64::MAX {
            facts.duration_millis as int
        } else {
            i64::MAX as int
        },
        track.file_format@ == format_of(text_of(facts.extension)),
        track.file_size == facts.size_bytes / 1_048_576,
        track.date_added == facts.date_added,
        match cover_choice(facts.pictures@) {
            Some(at) => track.thumbnail_data == Some(facts.pictures[at as int].data)
                && track.thumbnail_mime == facts.pictures[at as int].mime,
            None => track.thumbnail_data is None && track.thumbnail_mime is None,
        },
{
    let TaggedFacts {
        extension,
        size_bytes,
        duration_millis,
        title,
        artist,
        album,
        pictures,
        date_added,
    } = facts;
    let mut pictures = pictures;
    let (thumbnail_data, thumbnail_mime) = match choose_picture(&pictures) {
        Some(at) => {
            let chosen = pictures.swap_remove(at);
            (Some(chosen.data), chosen.mime)
        },
        None => (None, None),
    };
    ExtractedTrack {
        file_path: path,
        title: or_empty(title),
        artist: or_empty(artist),
        album: or_empty(album),
        duration_ms: clamp_millis(duration_millis),
        file_format: file_format(&extension),
        file_size: megabytes(size_bytes),
        date_added,
        thumbnail_data,
        thumbnail_mime,
    }
}

/// The thumbnail in base64, standard alphabet, padded: the result of the
/// standard engine's `encode`.
pub uninterp spec fn base64_standard(data: Seq<u8>) -> Seq<char>;

/// Whether bytes of this length can be encoded: the encoded length has to
/// fit the machine's word.
pub open spec fn encodable_len(len: nat) -> bool {
    (len / 3) * 4 + 4 <= usize::MAX
}

/// Calls `Engine::encode` on `general_purpose::STANDARD` and gives its result
/// its name. The call panics where the encoded length overflows, which the
/// precondition leaves out.
#[verifier::external_body]
fn encode_standard(data: &Vec<u8>) -> (text: String)
    requires
        encodable_len(data@.len()),
    ensures
        text@ == base64_standard(data@),
{
    base64::Engine::encode(&base64::engine::general_purpose::STANDARD, data)
}

/// The track's thumbnail as base64 text, for a page to show; none where the
/// track has no thumbnail.
pub fn thumbnail_base64(track: &ExtractedTrack) -> (text: Option<String>)
    requires
        track.thumbnail_data is Some ==> encodable_len(track.thumbnail_data->0@.len()),
    ensures
        match track.thumbnail_data {
            Some(data) => text is Some && text->0@ == base64_standard(data@),
            None => text is None,
        },
{
    match &track.thumbnail_data {
        Some(data) => Some(encode_standard(data)),
        None => None,
    }
}

} // verus!
