//! The media block: the MPRIS playback status, the song's metadata, and the
//! album art file.
use vstd::prelude::*;
use crate::strings::{chars_eq_str, chars_of, str_eq, string_push_str, to_lowercase, trim_chars,
    trim_spec, lowercase};

verus! {

/// Whether a track is playing.
#[derive(Clone, Copy, Debug, PartialEq, Eq, Structural)]
pub enum PlaybackStatus {
    /// A track is currently playing.
    Playing,
    /// A track is currently paused.
    Paused,
    /// There is no track currently playing.
    Stopped,
}

/// The status that a lower-cased, trimmed MPRIS `PlaybackStatus` names;
/// anything unknown is stopped.
pub open spec fn playback_status_of(s: Seq<char>) -> PlaybackStatus {
    if s == "playing"@ {
        PlaybackStatus::Playing
    } else if s == "paused"@ {
        PlaybackStatus::Paused
    } else {
        PlaybackStatus::Stopped
    }
}

/// The icon for a playback status.
pub open spec fn playback_icon_spec(s: PlaybackStatus) -> Seq<char> {
    match s {
        PlaybackStatus::Playing => "\u{f040a} "@,
        PlaybackStatus::Paused => "\u{f03e4} "@,
        PlaybackStatus::Stopped => "\u{f04db} "@,
    }
}

impl PlaybackStatus {
    /// Reads an already lower-cased MPRIS `PlaybackStatus`: surrounding white
    /// space is ignored, and anything unknown is stopped.
    pub fn from_lowercased(lowered: &str) -> (r: Self)
        ensures
            r == playback_status_of(trim_spec(lowered@)),
    {
        let v = chars_of(lowered);
        let t = trim_chars(&v);
        if chars_eq_str(&t, "playing") {
            PlaybackStatus::Playing
        } else if chars_eq_str(&t, "paused") {
            PlaybackStatus::Paused
        } else {
            PlaybackStatus::Stopped
        }
    }

    /// Reads an MPRIS `PlaybackStatus` in any letter case; this never fails.
    pub fn from_str(s: &str) -> (r: Result<Self, ()>)
        ensures
            r == Ok::<PlaybackStatus, ()>(playback_status_of(trim_spec(lowercase(s@)))),
    {
        let lowered = to_lowercase(s);
        Ok(Self::from_lowercased(lowered.as_str()))
    }

    /// The icon shown for this status.
    pub fn icon(&self) -> (r: &'static str)
        ensures
            r@ == playback_icon_spec(*self),
    {
        match self {
            PlaybackStatus::Playing => "\u{f040a} ",
            PlaybackStatus::Paused => "\u{f03e4} ",
            PlaybackStatus::Stopped => "\u{f04db} ",
        }
    }
}

impl Default for PlaybackStatus {
    fn default() -> (s: Self)
        ensures
            s == PlaybackStatus::Stopped,
    {
        PlaybackStatus::Stopped
    }
}

/// The song being played.
pub struct Metadata {
    pub title: String,
    pub artist: String,
    pub album: String,
    pub album_artist: String,
}

impl View for Metadata {
    /// `(title, artist, album, album_artist)`
    type V = (Seq<char>, Seq<char>, Seq<char>, Seq<char>);

    open spec fn view(&self) -> (Seq<char>, Seq<char>, Seq<char>, Seq<char>) {
        (self.title@, self.artist@, self.album@, self.album_artist@)
    }
}

/// No song.
pub open spec fn empty_metadata() -> (Seq<char>, Seq<char>, Seq<char>, Seq<char>) {
    (Seq::empty(), Seq::empty(), Seq::empty(), Seq::empty())
}

impl Default for Metadata {
    fn default() -> (m: Self)
        ensures
            m@ == empty_metadata(),
    {
        Metadata {
            title: String::new(),
            artist: String::new(),
            album: String::new(),
            album_artist: String::new(),
        }
    }
}

/// A URL's scheme and path.
pub struct ParsedUrl {
    pub scheme: String,
    pub path: String,
}

/// What `url::Url::parse` gives for a text: its scheme and path, or nothing
/// when the text is not a URL.
pub uninterp spec fn url_parts(s: Seq<char>) -> Option<(Seq<char>, Seq<char>)>;

/// Parses a URL (`url::Url::parse`), keeping its scheme and path.
#[verifier::external_body]
fn parse_url(s: &str) -> (r: Option<ParsedUrl>)
    ensures
        r is Some <==> url_parts(s@) is Some,
        r matches Some(u) ==> url_parts(s@) == Some((u.scheme@, u.path@)),
{
    match url::Url::parse(s) {
        Ok(u) => Some(ParsedUrl { scheme: u.scheme().to_owned(), path: u.path().to_owned() }),
        Err(_) => None,
    }
}

/// What `pct_str::PctStr::new(s)` and `decode` give: the percent-decoded text,
/// or nothing when `s` is not a valid percent-encoded string.
pub uninterp spec fn pct_decoded(s: Seq<char>) -> Option<Seq<char>>;

/// Percent-decodes a string (`pct_str::PctStr::new`, then `decode`). A text
/// without `%` decodes to itself.
#[verifier::external_body]
fn pct_decode(s: &str) -> (r: Option<String>)
    ensures
        r is Some <==> pct_decoded(s@) is Some,
        r matches Some(d) ==> pct_decoded(s@) == Some(d@),
        !s@.contains('%') ==> r is Some,
        r matches Some(d) ==> (!s@.contains('%') ==> d@ == s@),
{
    match pct_str::PctStr::new(s) {
        Ok(p) => Some(p.decode()),
        Err(_) => None,
    }
}

impl ParsedUrl {
    /// Parses a URL; `None` when the text is not one.
    pub fn parse(s: &str) -> (r: Option<ParsedUrl>)
        ensures
            r is Some <==> url_parts(s@) is Some,
            r matches Some(u) ==> url_parts(s@) == Some((u.scheme@, u.path@)),
    {
        parse_url(s)
    }
}

/// The album-art file that a URL's scheme and path name: the decoded path of
/// a `file` URL, nothing for any other scheme.
pub open spec fn art_file(scheme: Seq<char>, path: Seq<char>) -> Option<Seq<char>> {
    if scheme == "file"@ {
        pct_decoded(path)
    } else {
        None
    }
}

/// Whether the album-art URL text can be handled: it is not a URL, or not a
/// `file` URL, or its path decodes.
pub open spec fn art_url_ok(s: Seq<char>) -> bool {
    match url_parts(s) {
        Some(parts) => parts.0 == "file"@ ==> pct_decoded(parts.1) is Some,
        None => true,
    }
}

/// The album-art file of a URL: its decoded path if it is a `file` URL.
pub fn url_to_handle(art_url: &ParsedUrl) -> (r: Option<String>)
    requires
        art_url.scheme@ == "file"@ ==> pct_decoded(art_url.path@) is Some,
    ensures
        r is Some <==> art_file(art_url.scheme@, art_url.path@) is Some,
        r matches Some(p) ==> art_file(art_url.scheme@, art_url.path@) == Some(p@),
{
    if str_eq(art_url.scheme.as_str(), "file") {
        pct_decode(art_url.path.as_str())
    } else {
        None
    }
}

/// Whether the album-art URL text can be handled (see `art_url_ok`).
pub fn check_art_url(s: &str) -> (r: bool)
    ensures
        r == art_url_ok(s@),
{
    match parse_url(s) {
        Some(u) => {
            if str_eq(u.scheme.as_str(), "file") {
                pct_decode(u.path.as_str()).is_some()
            } else {
                true
            }
        },
        None => true,
    }
}

/// The song and album art after one MPRIS metadata entry `(key, value)`.
/// For list-valued keys the value is the list's first element.
pub open spec fn apply_entry(
    state: ((Seq<char>, Seq<char>, Seq<char>, Seq<char>), Option<Seq<char>>),
    entry: (Seq<char>, Seq<char>),
) -> ((Seq<char>, Seq<char>, Seq<char>, Seq<char>), Option<Seq<char>>) {
    let m = state.0;
    let (k, v) = entry;
    if k == "xesam:title"@ {
        ((v, m.1, m.2, m.3), state.1)
    } else if k == "xesam:album"@ {
        ((m.0, m.1, v, m.3), state.1)
    } else if k == "xesam:albumArtist"@ {
        ((m.0, m.1, m.2, v), state.1)
    } else if k == "xesam:artist"@ {
        ((m.0, v, m.2, m.3), state.1)
    } else if k == "mpris:artUrl"@ {
        match url_parts(v) {
            Some(parts) => (m, art_file(parts.0, parts.1)),
            None => state,
        }
    } else {
        state
    }
}

/// The song and album art after metadata entries, applied in order.
pub open spec fn apply_entries(
    state: ((Seq<char>, Seq<char>, Seq<char>, Seq<char>), Option<Seq<char>>),
    entries: Seq<(Seq<char>, Seq<char>)>,
) -> ((Seq<char>, Seq<char>, Seq<char>, Seq<char>), Option<Seq<char>>)
    decreases entries.len(),
{
    if entries.len() == 0 {
        state
    } else {
        apply_entry(apply_entries(state, entries.drop_last()), entries.last())
    }
}

/// Whether every album-art entry among `entries` can be handled.
pub open spec fn entries_ok(entries: Seq<(Seq<char>, Seq<char>)>) -> bool {
    forall|i: int| 0 <= i < entries.len() && #[trigger] entries[i].0 == "mpris:artUrl"@ ==> art_url_ok(entries[i].1)
}

/// The text view of metadata entries.
pub open spec fn entries_view(entries: Seq<(String, String)>) -> Seq<(Seq<char>, Seq<char>)> {
    entries.map_values(|e: (String, String)| (e.0@, e.1@))
}

/// The text view of an album-art file.
pub open spec fn art_view(a: Option<String>) -> Option<Seq<char>> {
    match a {
        Some(s) => Some(s@),
        None => None,
    }
}

/// Metadata entries as text, if there are any.
pub open spec fn metadata_view(metadata: Option<&Vec<(String, String)>>) -> Option<Seq<(Seq<char>, Seq<char>)>> {
    match metadata {
        Some(e) => Some(entries_view(e@)),
        None => None,
    }
}

/// A status as text, if there is one.
pub open spec fn status_view(status: Option<&str>) -> Option<Seq<char>> {
    match status {
        Some(s) => Some(s@),
        None => None,
    }
}

/// The media block `after` is `before` after MPRIS `PropertiesChanged` with
/// the given metadata entries and playback status (each if present): the
/// entries are applied in order, then the status is taken; stopping forgets
/// the song and its album art.
pub open spec fn media_queried(
    before: PlaybackBlock,
    after: PlaybackBlock,
    metadata: Option<Seq<(Seq<char>, Seq<char>)>>,
    status: Option<Seq<char>>,
) -> bool {
    let after_meta = match metadata {
        Some(e) => apply_entries((before.song_metadata@, art_view(before.album_art)), e),
        None => (before.song_metadata@, art_view(before.album_art)),
    };
    match status {
        Some(s) => {
            &&& after.playing == playback_status_of(trim_spec(lowercase(s)))
            &&& (after.playing == PlaybackStatus::Stopped ==> after.song_metadata@ == empty_metadata()
                && after.album_art is None)
            &&& (after.playing != PlaybackStatus::Stopped ==> (after.song_metadata@, art_view(after.album_art))
                == after_meta)
        },
        None => {
            &&& after.playing == before.playing
            &&& (after.song_metadata@, art_view(after.album_art)) == after_meta
        },
    }
}

/// The media block.
pub struct PlaybackBlock {
    pub playing: PlaybackStatus,
    pub song_metadata: Metadata,
    pub album_art: Option<String>,
}

impl PlaybackBlock {
    /// Applies MPRIS metadata entries `(key, value)` in order.
    pub fn apply_metadata(&mut self, entries: &Vec<(String, String)>)
        requires
            entries_ok(entries_view(entries@)),
        ensures
            final(self).playing == old(self).playing,
            (final(self).song_metadata@, art_view(final(self).album_art)) == apply_entries(
                (old(self).song_metadata@, art_view(old(self).album_art)),
                entries_view(entries@),
            ),
    {
        let ghost start = (self.song_metadata@, art_view(self.album_art));
        let ghost playing = self.playing;
        let ghost ev = entries_view(entries@);
        let mut i: usize = 0;
        while i < entries.len()
            invariant
                i <= entries.len(),
                self.playing == playing,
                ev == entries_view(entries@),
                entries_ok(ev),
                (self.song_metadata@, art_view(self.album_art)) == apply_entries(start, ev.take(i as int)),
            decreases entries.len() - i,
        {
            let key = entries[i].0.as_str();
            let value = entries[i].1.as_str();
            let ghost before = (self.song_metadata@, art_view(self.album_art));
            assert(ev[i as int] == (key@, value@));
            if str_eq(key, "xesam:title") {
                self.song_metadata.title = value.to_owned();
            } else if str_eq(key, "xesam:album") {
                self.song_metadata.album = value.to_owned();
            } else if str_eq(key, "xesam:albumArtist") {
                self.song_metadata.album_artist = value.to_owned();
            } else if str_eq(key, "xesam:artist") {
                self.song_metadata.artist = value.to_owned();
            } else if str_eq(key, "mpris:artUrl") {
                if let Some(art) = ParsedUrl::parse(value) {
                    assert(ev[i as int].0 == "mpris:artUrl"@);
                    assert(art_url_ok(ev[i as int].1));
                    self.album_art = url_to_handle(&art);
                }
            }
            proof {
                assert(ev.take(i + 1).drop_last() =~= ev.take(i as int));
                assert(ev.take(i + 1).last() == ev[i as int]);
                assert((self.song_metadata@, art_view(self.album_art)) == apply_entry(before, ev[i as int]));
            }
            i = i + 1;
        }
        assert(ev.take(ev.len() as int) =~= ev);
    }

    /// The block for an MPRIS `PlaybackStatus` and, if the player reported
    /// them, its metadata entries.
    pub fn new(status: &str, metadata: Option<&Vec<(String, String)>>) -> (b: Self)
        requires
            metadata matches Some(e) ==> entries_ok(entries_view(e@)),
        ensures
            b.playing == playback_status_of(trim_spec(lowercase(status@))),
            metadata is None ==> b.song_metadata@ == empty_metadata() && b.album_art is None,
            metadata matches Some(e) ==> (b.song_metadata@, art_view(b.album_art)) == apply_entries(
                (empty_metadata(), None),
                entries_view(e@),
            ),
    {
        let playing = match PlaybackStatus::from_str(status) {
            Ok(p) => p,
            Err(_) => PlaybackStatus::Stopped,
        };
        let mut b = PlaybackBlock { playing, song_metadata: Metadata::default(), album_art: None };
        if let Some(entries) = metadata {
            b.apply_metadata(entries);
        }
        b
    }

    /// Handles MPRIS `PropertiesChanged`: the changed metadata entries and the
    /// changed playback status, each if present. Returns whether anything was
    /// changed. Stopping forgets the song and its album art.
    pub fn query_media(&mut self, metadata: Option<&Vec<(String, String)>>, playback_status: Option<&str>) -> (changed: bool)
        requires
            metadata matches Some(e) ==> entries_ok(entries_view(e@)),
        ensures
            changed == (metadata is Some || playback_status is Some),
            media_queried(*old(self), *final(self), metadata_view(metadata), status_view(playback_status)),
    {
        let mut changed = false;
        if let Some(entries) = metadata {
            changed = true;
            self.apply_metadata(entries);
        }
        if let Some(status) = playback_status {
            changed = true;
            self.playing = match PlaybackStatus::from_str(status) {
                Ok(p) => p,
                Err(_) => PlaybackStatus::Stopped,
            };
            if self.playing == PlaybackStatus::Stopped {
                self.song_metadata = Metadata::default();
                self.album_art = None;
            }
        }
        changed
    }

    /// `query_media` for entries that may hold an album-art URL whose file
    /// path does not decode: in that case nothing is changed and `None` is
    /// returned; otherwise it is `query_media`.
    pub fn try_query_media(&mut self, metadata: Option<&Vec<(String, String)>>, playback_status: Option<&str>) -> (r: Option<bool>)
        ensures
            r is None <==> (metadata matches Some(e) && !entries_ok(entries_view(e@))),
            r is None ==> final(self).playing == old(self).playing && final(self).song_metadata@ == old(self).song_metadata@ && final(self).album_art == old(self).album_art,
            r matches Some(changed) ==> changed == (metadata is Some || playback_status is Some),
            r is Some ==> media_queried(*old(self), *final(self), metadata_view(metadata), status_view(playback_status)),
    {
        if let Some(entries) = metadata {
            let ghost ev = entries_view(entries@);
            let mut i: usize = 0;
            while i < entries.len()
                invariant
                    i <= entries.len(),
                    ev == entries_view(entries@),
                    metadata == Some(entries),
                    forall|j: int| 0 <= j < i && #[trigger] ev[j].0 == "mpris:artUrl"@ ==> art_url_ok(ev[j].1),
                decreases entries.len() - i,
            {
                assert(ev[i as int] == (entries@[i as int].0@, entries@[i as int].1@));
                if str_eq(entries[i].0.as_str(), "mpris:artUrl") && !check_art_url(entries[i].1.as_str()) {
                    assert(ev[i as int].0 == "mpris:artUrl"@ && !art_url_ok(ev[i as int].1));
                    assert(!entries_ok(ev));
                    return None;
                }
                i = i + 1;
            }
        }
        Some(self.query_media(metadata, playback_status))
    }

    /// Appends the block's text: a space and the status icon, then the title
    /// unless stopped.
    pub fn fmt(&self, f: &mut String)
        ensures
            final(f)@ == old(f)@ + seq![' '] + playback_icon_spec(self.playing) + (if self.playing
                != PlaybackStatus::Stopped {
                self.song_metadata.title@
            } else {
                Seq::empty()
            }),
    {
        string_push_str(f, " ");
        string_push_str(f, self.playing.icon());
        if self.playing != PlaybackStatus::Stopped {
            string_push_str(f, self.song_metadata.title.as_str());
        }
        proof {
            reveal_strlit(" ");
        }
    }
}

} // verus!
