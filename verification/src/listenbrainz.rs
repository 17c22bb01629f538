//! The ListenBrainz scrobbler's decisions: which metadata fields a track
//! has, whether it is scrobbled, how cached listens are batched, how a
//! recording id is read from an ID3 `UFID` frame, and what a rating key means.
use vstd::prelude::*;
use vstd::utf8::{encode_utf8, valid_utf8};
use crate::strings::str_eq;

verus! {

/// The request body that submits cached listens: `single` when there is one,
/// `import` otherwise; the cached payloads are separated by commas.
pub open spec fn import_request_spec(contents: Seq<Seq<u8>>) -> Seq<u8> {
    let head = if contents.len() == 1 {
        "{\"listen_type\":\"single\",\"payload\":["@
    } else {
        "{\"listen_type\":\"import\",\"payload\":["@
    };
    ascii_bytes(head) + joined_with_commas(contents) + seq![93u8, 125u8]
}

/// The bytes of an ASCII text.
pub open spec fn ascii_bytes(s: Seq<char>) -> Seq<u8> {
    s.map_values(|c: char| c as u8)
}

/// The payloads separated by commas.
pub open spec fn joined_with_commas(contents: Seq<Seq<u8>>) -> Seq<u8>
    decreases contents.len(),
{
    if contents.len() == 0 {
        Seq::empty()
    } else if contents.len() == 1 {
        contents[0]
    } else {
        joined_with_commas(contents.drop_last()) + seq![44u8] + contents.last()
    }
}

fn push_ascii(v: &mut Vec<u8>, s: &str)
    requires
        forall|i: int| 0 <= i < s@.len() ==> (#[trigger] s@[i] as u32) < 128,
    ensures
        final(v)@ == old(v)@ + ascii_bytes(s@),
{
    let n = s.unicode_len();
    let mut i: usize = 0;
    let ghost start = v@;
    while i < n
        invariant
            n == s@.len(),
            i <= n,
            forall|j: int| 0 <= j < s@.len() ==> (#[trigger] s@[j] as u32) < 128,
            v@ == start + ascii_bytes(s@.subrange(0, i as int)),
        decreases n - i,
    {
        let c = s.get_char(i);
        v.push(c as u8);
        assert(ascii_bytes(s@.subrange(0, i + 1)) =~= ascii_bytes(s@.subrange(0, i as int)).push(
            c as u8,
        ));
        i = i + 1;
    }
    assert(s@.subrange(0, n as int) =~= s@);
}

/// The request body that submits the cached listens `contents`, or nothing
/// when there are none.
pub fn import_request(contents: &Vec<Vec<u8>>) -> (r: Option<Vec<u8>>)
    ensures
        contents@.len() == 0 ==> r is None,
        contents@.len() > 0 ==> (r matches Some(b) && b@ == import_request_spec(
            contents@.map_values(|c: Vec<u8>| c@),
        )),
{
    if contents.len() == 0 {
        return None;
    }
    let ghost cs = contents@.map_values(|c: Vec<u8>| c@);
    let mut request: Vec<u8> = Vec::new();
    let head = if contents.len() == 1 {
        "{\"listen_type\":\"single\",\"payload\":["
    } else {
        "{\"listen_type\":\"import\",\"payload\":["
    };
    proof {
        reveal_strlit("{\"listen_type\":\"single\",\"payload\":[");
        reveal_strlit("{\"listen_type\":\"import\",\"payload\":[");
    }
    push_ascii(&mut request, head);
    let ghost prefix = request@;
    let mut i: usize = 0;
    while i < contents.len()
        invariant
            0 < contents@.len(),
            i <= contents.len(),
            cs == contents@.map_values(|c: Vec<u8>| c@),
            i == 0 ==> request@ == prefix,
            i > 0 ==> request@ == prefix + joined_with_commas(cs.take(i as int)) + seq![44u8],
        decreases contents.len() - i,
    {
        let c = &contents[i];
        let ghost before = request@;
        let mut j: usize = 0;
        while j < c.len()
            invariant
                j <= c.len(),
                request@ == before + c@.subrange(0, j as int),
            decreases c.len() - j,
        {
            request.push(c[j]);
            j = j + 1;
        }
        request.push(44u8);
        proof {
            assert(c@.subrange(0, c@.len() as int) =~= c@);
            assert(cs[i as int] == c@);
            if i == 0 {
                assert(cs.take(1) =~= seq![c@]);
                assert(request@ =~= prefix + joined_with_commas(cs.take(1)) + seq![44u8]);
            } else {
                assert(cs.take(i + 1).drop_last() =~= cs.take(i as int));
                assert(request@ =~= prefix + joined_with_commas(cs.take(i + 1)) + seq![44u8]);
            }
        }
        i = i + 1;
    }
    request.pop();
    request.push(93u8);
    request.push(125u8);
    proof {
        assert(cs.take(cs.len() as int) =~= cs);
        assert(request@ =~= import_request_spec(cs));
    }
    Some(request)
}

/// Position of the first `needle` in `haystack`, or -1.
pub open spec fn first_byte(haystack: Seq<u8>, needle: u8) -> int
    decreases haystack.len(),
{
    if haystack.len() == 0 {
        -1
    } else if haystack[0] == needle {
        0
    } else {
        let r = first_byte(haystack.drop_first(), needle);
        if r < 0 {
            -1
        } else {
            r + 1
        }
    }
}

/// The first position of a byte (`memchr::memchr`).
#[verifier::external_body]
fn find_byte(needle: u8, haystack: &[u8]) -> (r: Option<usize>)
    ensures
        match r {
            Some(i) => i as int == first_byte(haystack@, needle),
            None => first_byte(haystack@, needle) < 0,
        },
{
    memchr::memchr(needle, haystack)
}

proof fn lemma_first_byte(h: Seq<u8>, b: u8)
    ensures
        -1 <= first_byte(h, b) < h.len(),
    decreases h.len(),
{
    if h.len() > 0 {
        lemma_first_byte(h.drop_first(), b);
    }
}

/// Decodes UTF-8 (`std::str::from_utf8`); `None` when the bytes are not UTF-8.
#[verifier::external_body]
fn utf8_string(v: &[u8]) -> (r: Option<String>)
    ensures
        r is Some <==> valid_utf8(v@),
        r matches Some(s) ==> encode_utf8(s@) == v@,
{
    match std::str::from_utf8(v) {
        Ok(s) => Some(s.to_owned()),
        Err(_) => None,
    }
}

/// The owner that marks a MusicBrainz recording id in a `UFID` frame.
pub open spec fn musicbrainz_owner() -> Seq<u8> {
    ascii_bytes("http://musicbrainz.org"@)
}

/// The recording id that a `UFID` frame's data holds: after the owner
/// `http://musicbrainz.org` and a NUL byte, the rest as UTF-8 text.
pub open spec fn ufid_recording_id(data: Seq<u8>) -> Option<Seq<u8>> {
    let p = first_byte(data, 0);
    if p < 0 || data.subrange(0, p) != musicbrainz_owner() || !valid_utf8(data.subrange(p + 1, data.len() as int)) {
        None
    } else {
        Some(data.subrange(p + 1, data.len() as int))
    }
}

fn copy_range(data: &Vec<u8>, from: usize, to: usize) -> (r: Vec<u8>)
    requires
        from <= to <= data@.len(),
    ensures
        r@ == data@.subrange(from as int, to as int),
{
    let mut r: Vec<u8> = Vec::new();
    let mut j: usize = from;
    while j < to
        invariant
            from <= j <= to <= data@.len(),
            r@ == data@.subrange(from as int, j as int),
        decreases to - j,
    {
        r.push(data[j]);
        j = j + 1;
    }
    r
}

fn bytes_eq(a: &Vec<u8>, b: &Vec<u8>) -> (r: bool)
    ensures
        r == (a@ == b@),
{
    if a.len() != b.len() {
        return false;
    }
    let mut i: usize = 0;
    while i < a.len()
        invariant
            a.len() == b.len(),
            i <= a.len(),
            forall|j: int| 0 <= j < i ==> a@[j] == b@[j],
        decreases a.len() - i,
    {
        if a[i] != b[i] {
            return false;
        }
        i = i + 1;
    }
    assert(a@ =~= b@);
    true
}

/// The MusicBrainz recording id in a `UFID` frame's data, if it holds one.
pub fn recording_id_from_ufid(data: &Vec<u8>) -> (r: Option<String>)
    ensures
        r is Some <==> ufid_recording_id(data@) is Some,
        r matches Some(s) ==> ufid_recording_id(data@) == Some(encode_utf8(s@)),
{
    proof {
        lemma_first_byte(data@, 0);
    }
    let pos = match find_byte(0, data.as_slice()) {
        Some(p) => p,
        None => {
            return None;
        },
    };
    proof {
        reveal_strlit("http://musicbrainz.org");
    }
    let mut owner: Vec<u8> = Vec::new();
    push_ascii(&mut owner, "http://musicbrainz.org");
    let head = copy_range(data, 0, pos);
    if !bytes_eq(&owner, &head) {
        return None;
    }
    let rest = copy_range(data, pos + 1, data.len());
    utf8_string(rest.as_slice())
}

/// The recording id of the first `UFID` frame that holds one; frames are
/// `(id, data)`, with no data for frames whose content is not raw bytes.
pub open spec fn first_recording_id(frames: Seq<(Seq<char>, Option<Seq<u8>>)>) -> Option<Seq<u8>>
    decreases frames.len(),
{
    if frames.len() == 0 {
        None
    } else {
        let f = frames[0];
        let here = if f.0 == "UFID"@ {
            match f.1 {
                Some(d) => ufid_recording_id(d),
                None => None,
            }
        } else {
            None
        };
        if here is Some {
            here
        } else {
            first_recording_id(frames.drop_first())
        }
    }
}

/// The frames of an ID3 tag as `(id, data)`.
pub open spec fn frames_view(frames: Seq<(String, Option<Vec<u8>>)>) -> Seq<(Seq<char>, Option<Seq<u8>>)> {
    frames.map_values(|f: (String, Option<Vec<u8>>)| (f.0@, match f.1 {
        Some(d) => Some(d@),
        None => None,
    }))
}

/// The recording id of the first `UFID` frame that holds one.
pub fn read_recording_id(frames: &Vec<(String, Option<Vec<u8>>)>) -> (r: Option<String>)
    ensures
        r is Some <==> first_recording_id(frames_view(frames@)) is Some,
        r matches Some(s) ==> first_recording_id(frames_view(frames@)) == Some(encode_utf8(s@)),
{
    let ghost fv = frames_view(frames@);
    let mut i: usize = 0;
    assert(fv.subrange(0, fv.len() as int) =~= fv);
    while i < frames.len()
        invariant
            i <= frames.len(),
            fv == frames_view(frames@),
            first_recording_id(fv) == first_recording_id(fv.subrange(i as int, fv.len() as int)),
        decreases frames.len() - i,
    {
        let ghost rest = fv.subrange(i as int, fv.len() as int);
        assert(rest[0] == fv[i as int]);
        assert(rest.drop_first() =~= fv.subrange(i + 1, fv.len() as int));
        if str_eq(frames[i].0.as_str(), "UFID") {
            match &frames[i].1 {
                Some(data) => {
                    let found = recording_id_from_ufid(data);
                    if found.is_some() {
                        return found;
                    }
                },
                None => {},
            }
        }
        i = i + 1;
    }
    assert(fv.subrange(i as int, fv.len() as int) =~= Seq::<(Seq<char>, Option<Seq<u8>>)>::empty());
    None
}

/// The score that a rating key binding stands for: love, hate or unrate.
pub open spec fn rating_score_spec(binding: Seq<char>) -> Option<i32> {
    if binding == "listenbrainz-love"@ {
        Some(1i32)
    } else if binding == "listenbrainz-hate"@ {
        Some(-1i32)
    } else if binding == "listenbrainz-unrate"@ {
        Some(0i32)
    } else {
        None
    }
}

/// The score that a rating key binding stands for, if it is one.
pub fn rating_score(binding: &str) -> (r: Option<i32>)
    ensures
        r == rating_score_spec(binding@),
{
    if str_eq(binding, "listenbrainz-love") {
        Some(1)
    } else if str_eq(binding, "listenbrainz-hate") {
        Some(-1)
    } else if str_eq(binding, "listenbrainz-unrate") {
        Some(0)
    } else {
        None
    }
}

/// What happens when a key binding is pressed while a track plays.
#[derive(Clone, Debug, PartialEq, Eq)]
pub enum RatingDecision {
    /// The binding is not one of the rating bindings: nothing happens.
    NotARating,
    /// The track has no recording id, so it cannot be rated: a message says so.
    UnknownRecording,
    /// The feedback to submit: the recording id and the score.
    Submit { recording_mbid: String, score: i32 },
}

/// What pressing `binding` does for a track with the recording id
/// `recording_mbid` (empty when unknown).
pub fn rating_decision(binding: &str, recording_mbid: &str) -> (r: RatingDecision)
    ensures
        rating_score_spec(binding@) is None ==> r == RatingDecision::NotARating,
        rating_score_spec(binding@) is Some && recording_mbid@.len() == 0 ==> r == RatingDecision::UnknownRecording,
        rating_score_spec(binding@) is Some && recording_mbid@.len() > 0 ==> (r matches
            RatingDecision::Submit { recording_mbid: id, score: sc } && id@ == recording_mbid@ && Some(sc)
            == rating_score_spec(binding@)),
{
    match rating_score(binding) {
        None => RatingDecision::NotARating,
        Some(score) => {
            if recording_mbid.unicode_len() == 0 {
                RatingDecision::UnknownRecording
            } else {
                RatingDecision::Submit { recording_mbid: recording_mbid.to_owned(), score }
            }
        },
    }
}

/// Which field of the submitted track a metadata key fills.
#[derive(Clone, Copy, Debug, PartialEq, Eq, Structural)]
pub enum MetadataField {
    ReleaseMbid,
    ArtistMbids,
    RecordingMbid,
    ArtistName,
    TrackName,
    ReleaseName,
    Ignored,
}

/// The field that a metadata key (in the spellings of Vorbis comments and
/// ID3 tags) fills.
pub open spec fn metadata_field_spec(key: Seq<char>) -> MetadataField {
    if key == "MUSICBRAINZ_ALBUMID"@ || key == "MusicBrainz Album Id"@ {
        MetadataField::ReleaseMbid
    } else if key == "MUSICBRAINZ_ARTISTID"@ || key == "MusicBrainz Artist Id"@ {
        MetadataField::ArtistMbids
    } else if key == "MUSICBRAINZ_TRACKID"@ || key == "http://musicbrainz.org"@ {
        MetadataField::RecordingMbid
    } else if key == "ARTIST"@ || key == "artist"@ {
        MetadataField::ArtistName
    } else if key == "TITLE"@ || key == "title"@ {
        MetadataField::TrackName
    } else if key == "ALBUM"@ || key == "album"@ {
        MetadataField::ReleaseName
    } else {
        MetadataField::Ignored
    }
}

/// The field that a metadata key fills.
pub fn metadata_field(key: &str) -> (r: MetadataField)
    ensures
        r == metadata_field_spec(key@),
{
    if str_eq(key, "MUSICBRAINZ_ALBUMID") || str_eq(key, "MusicBrainz Album Id") {
        MetadataField::ReleaseMbid
    } else if str_eq(key, "MUSICBRAINZ_ARTISTID") || str_eq(key, "MusicBrainz Artist Id") {
        MetadataField::ArtistMbids
    } else if str_eq(key, "MUSICBRAINZ_TRACKID") || str_eq(key, "http://musicbrainz.org") {
        MetadataField::RecordingMbid
    } else if str_eq(key, "ARTIST") || str_eq(key, "artist") {
        MetadataField::ArtistName
    } else if str_eq(key, "TITLE") || str_eq(key, "title") {
        MetadataField::TrackName
    } else if str_eq(key, "ALBUM") || str_eq(key, "album") {
        MetadataField::ReleaseName
    } else {
        MetadataField::Ignored
    }
}

/// What `regex::Regex::new(pattern)` and `find_iter(haystack)` give: the
/// texts of the successive non-overlapping matches, or nothing when the
/// pattern is not a valid regular expression.
pub uninterp spec fn regex_matches(pattern: Seq<char>, haystack: Seq<char>) -> Option<Seq<Seq<char>>>;

/// All matches of `pattern` in `haystack` (`regex::Regex::find_iter`).
#[verifier::external_body]
fn find_all(pattern: &str, haystack: &str) -> (r: Option<Vec<String>>)
    ensures
        r is Some <==> regex_matches(pattern@, haystack@) is Some,
        r matches Some(v) ==> regex_matches(pattern@, haystack@) == Some(v@.map_values(|s: String| s@)),
{
    match regex::Regex::new(pattern) {
        Ok(re) => Some(re.find_iter(haystack).map(|m| m.as_str().to_owned()).collect()),
        Err(_) => None,
    }
}

/// The pattern of a MusicBrainz id.
pub open spec fn uuid_pattern() -> Seq<char> {
    "[0-9a-f]{8}-[0-9a-f]{4}-[0-9a-f]{4}-[0-9a-f]{4}-[0-9a-f]{12}"@
}

/// The MusicBrainz ids that an artist-id tag lists, in order.
pub fn artist_mbids(artists: &str) -> (r: Option<Vec<String>>)
    ensures
        r is Some <==> regex_matches(uuid_pattern(), artists@) is Some,
        r matches Some(v) ==> regex_matches(uuid_pattern(), artists@) == Some(v@.map_values(|s: String| s@)),
{
    find_all("[0-9a-f]{8}-[0-9a-f]{4}-[0-9a-f]{4}-[0-9a-f]{4}-[0-9a-f]{12}", artists)
}

/// The track fields read from a file's metadata.
pub struct TrackInfo {
    pub release_mbid: Option<String>,
    pub artist_mbids: Vec<String>,
    pub recording_mbid: String,
    pub artist_name: Option<String>,
    pub track_name: Option<String>,
    pub release_name: Option<String>,
}

/// Whether a track is scrobbled: its metadata names it (the title is not
/// just the file name) and gives artist, title, album and release id.
pub open spec fn should_scrobble_spec(filename: Seq<char>, info: TrackInfo) -> bool {
    let title = match info.track_name {
        Some(t) => t@,
        None => Seq::empty(),
    };
    &&& filename != title
    &&& info.artist_name is Some
    &&& info.track_name is Some
    &&& info.release_name is Some
    &&& info.release_mbid is Some
}

impl TrackInfo {
    /// A track with no fields read yet.
    pub fn new() -> (t: Self)
        ensures
            t.release_mbid is None,
            t.artist_mbids@.len() == 0,
            t.recording_mbid@.len() == 0,
            t.artist_name is None,
            t.track_name is None,
            t.release_name is None,
    {
        TrackInfo {
            release_mbid: None,
            artist_mbids: Vec::new(),
            recording_mbid: String::new(),
            artist_name: None,
            track_name: None,
            release_name: None,
        }
    }

    /// Reads one metadata entry `(key, value)` into the field its key names.
    /// An artist-id value whose ids cannot be listed leaves the ids as they are.
    pub fn read_entry(&mut self, key: &str, value: &str)
        ensures
            ({
                let f = metadata_field_spec(key@);
                &&& (f == MetadataField::ReleaseMbid) ==> (final(self).release_mbid matches Some(v) && v@ == value@)
                &&& (f != MetadataField::ReleaseMbid) ==> final(self).release_mbid == old(self).release_mbid
                &&& (f == MetadataField::ArtistName) ==> (final(self).artist_name matches Some(v) && v@ == value@)
                &&& (f != MetadataField::ArtistName) ==> final(self).artist_name == old(self).artist_name
                &&& (f == MetadataField::TrackName) ==> (final(self).track_name matches Some(v) && v@ == value@)
                &&& (f != MetadataField::TrackName) ==> final(self).track_name == old(self).track_name
                &&& (f == MetadataField::ReleaseName) ==> (final(self).release_name matches Some(v) && v@ == value@)
                &&& (f != MetadataField::ReleaseName) ==> final(self).release_name == old(self).release_name
                &&& (f == MetadataField::RecordingMbid) ==> final(self).recording_mbid@ == value@
                &&& (f != MetadataField::RecordingMbid) ==> final(self).recording_mbid == old(self).recording_mbid
                &&& (f == MetadataField::ArtistMbids && regex_matches(uuid_pattern(), value@) is Some)
                    ==> Some(final(self).artist_mbids@.map_values(|s: String| s@)) == regex_matches(uuid_pattern(), value@)
                &&& !(f == MetadataField::ArtistMbids && regex_matches(uuid_pattern(), value@) is Some)
                    ==> final(self).artist_mbids == old(self).artist_mbids
            }),
    {
        match metadata_field(key) {
            MetadataField::ReleaseMbid => {
                self.release_mbid = Some(value.to_owned());
            },
            MetadataField::ArtistMbids => {
                if let Some(ids) = artist_mbids(value) {
                    self.artist_mbids = ids;
                }
            },
            MetadataField::RecordingMbid => {
                self.recording_mbid = value.to_owned();
            },
            MetadataField::ArtistName => {
                self.artist_name = Some(value.to_owned());
            },
            MetadataField::TrackName => {
                self.track_name = Some(value.to_owned());
            },
            MetadataField::ReleaseName => {
                self.release_name = Some(value.to_owned());
            },
            MetadataField::Ignored => {},
        }
    }

    /// Whether the recording id must still be read from the file's tags: the
    /// metadata gave none.
    pub fn needs_recording_id(&self) -> (r: bool)
        ensures
            r == (self.recording_mbid@.len() == 0),
    {
        self.recording_mbid.as_str().unicode_len() == 0
    }

    /// Whether the track is scrobbled, given the name of the file it plays from.
    pub fn should_scrobble(&self, filename: &str) -> (r: bool)
        ensures
            r == should_scrobble_spec(filename@, *self),
    {
        let title_matches = match &self.track_name {
            Some(t) => str_eq(filename, t.as_str()),
            None => filename.is_empty(),
        };
        !title_matches && self.artist_name.is_some() && self.track_name.is_some()
            && self.release_name.is_some() && self.release_mbid.is_some()
    }
}

/// When the listen of the current track is submitted: a deadline (in
/// milliseconds on a monotonic clock) that moves back while playback is
/// paused.
pub struct ScrobbleTimer {
    /// Whether the current track is scrobbled at all.
    pub scrobble: bool,
    /// Whether the deadline is running (it is not while paused).
    pub timeout: bool,
    pub deadline: u64,
    pub pause_instant: u64,
}

impl ScrobbleTimer {
    /// Playback was paused or resumed at `now`. While the track is scrobbled,
    /// pausing stops the deadline and resuming moves it back by the time spent
    /// paused; for other tracks nothing changes.
    pub fn on_pause(&mut self, paused: bool, now: u64)
        requires
            old(self).scrobble && !paused && now > old(self).pause_instant ==> old(self).deadline + (now - old(self).pause_instant) <= u64::MAX,
        ensures
            final(self).scrobble == old(self).scrobble,
            !old(self).scrobble ==> *final(self) == *old(self),
            old(self).scrobble && paused ==> final(self).pause_instant == now && !final(self).timeout
                && final(self).deadline == old(self).deadline,
            old(self).scrobble && !paused ==> final(self).timeout && final(self).pause_instant == old(self).pause_instant
                && final(self).deadline == old(self).deadline + (if now > old(self).pause_instant { now - old(self).pause_instant } else { 0 }),
    {
        if self.scrobble {
            if paused {
                self.pause_instant = now;
                self.timeout = false;
            } else {
                let elapsed = if now > self.pause_instant { now - self.pause_instant } else { 0 };
                self.deadline = self.deadline + elapsed;
                self.timeout = true;
            }
        }
    }

    /// How the main loop waits at `now`: until the deadline while it is
    /// running and ahead, otherwise for the next event only.
    pub fn wait_until(&self, now: u64) -> (r: Option<u64>)
        ensures
            r == (if self.timeout && now < self.deadline { Some(self.deadline) } else { None::<u64> }),
    {
        if self.timeout && now < self.deadline {
            Some(self.deadline)
        } else {
            None
        }
    }

    /// The deadline passed at `now_secs` (seconds since the epoch): the listen
    /// is submitted with that time (none for time zero), and the track is no
    /// longer scrobbled.
    pub fn on_deadline(&mut self, now_secs: u64) -> (listened_at: Option<u64>)
        ensures
            listened_at == (if now_secs == 0 { None::<u64> } else { Some(now_secs) }),
            !final(self).scrobble,
            final(self).timeout == old(self).timeout,
            final(self).deadline == old(self).deadline,
            final(self).pause_instant == old(self).pause_instant,
    {
        self.scrobble = false;
        if now_secs == 0 {
            None
        } else {
            Some(now_secs)
        }
    }
}

/// Each field is filled by exactly its two spellings of the key, the
/// upper-case Vorbis comment name and the name mpv gives for ID3 tags (for
/// the plain tags: the same word in upper and in lower case); every other key
/// is ignored.
pub proof fn lemma_key_spellings(key: Seq<char>)
    ensures
        metadata_field_spec(key) == MetadataField::ReleaseName <==> (key == "ALBUM"@ || key == "album"@),
        metadata_field_spec(key) == MetadataField::ArtistName <==> (key == "ARTIST"@ || key == "artist"@),
        metadata_field_spec(key) == MetadataField::TrackName <==> (key == "TITLE"@ || key == "title"@),
        metadata_field_spec(key) == MetadataField::ReleaseMbid <==> (key == "MUSICBRAINZ_ALBUMID"@ || key
            == "MusicBrainz Album Id"@),
        metadata_field_spec(key) == MetadataField::ArtistMbids <==> (key == "MUSICBRAINZ_ARTISTID"@ || key
            == "MusicBrainz Artist Id"@),
        metadata_field_spec(key) == MetadataField::RecordingMbid <==> (key == "MUSICBRAINZ_TRACKID"@ || key
            == "http://musicbrainz.org"@),
{
    reveal_strlit("ALBUM");
    assert("ALBUM"@.len() == 5 && "ALBUM"@[0] == 'A' && "ALBUM"@[1] == 'L');
    reveal_strlit("album");
    assert("album"@.len() == 5 && "album"@[0] == 'a' && "album"@[1] == 'l');
    reveal_strlit("ARTIST");
    assert("ARTIST"@.len() == 6 && "ARTIST"@[0] == 'A' && "ARTIST"@[1] == 'R');
    reveal_strlit("artist");
    assert("artist"@.len() == 6 && "artist"@[0] == 'a' && "artist"@[1] == 'r');
    reveal_strlit("TITLE");
    assert("TITLE"@.len() == 5 && "TITLE"@[0] == 'T' && "TITLE"@[1] == 'I');
    reveal_strlit("title");
    assert("title"@.len() == 5 && "title"@[0] == 't' && "title"@[1] == 'i');
    reveal_strlit("MUSICBRAINZ_ALBUMID");
    assert("MUSICBRAINZ_ALBUMID"@.len() == 19 && "MUSICBRAINZ_ALBUMID"@[0] == 'M' && "MUSICBRAINZ_ALBUMID"@[1] == 'U' && "MUSICBRAINZ_ALBUMID"@[12] == 'A');
    reveal_strlit("MusicBrainz Album Id");
    assert("MusicBrainz Album Id"@.len() == 20 && "MusicBrainz Album Id"@[0] == 'M' && "MusicBrainz Album Id"@[1] == 'u' && "MusicBrainz Album Id"@[12] == 'A');
    reveal_strlit("MUSICBRAINZ_ARTISTID");
    assert("MUSICBRAINZ_ARTISTID"@.len() == 20 && "MUSICBRAINZ_ARTISTID"@[0] == 'M' && "MUSICBRAINZ_ARTISTID"@[1] == 'U' && "MUSICBRAINZ_ARTISTID"@[12] == 'A');
    reveal_strlit("MusicBrainz Artist Id");
    assert("MusicBrainz Artist Id"@.len() == 21 && "MusicBrainz Artist Id"@[0] == 'M' && "MusicBrainz Artist Id"@[1] == 'u' && "MusicBrainz Artist Id"@[12] == 'A');
    reveal_strlit("MUSICBRAINZ_TRACKID");
    assert("MUSICBRAINZ_TRACKID"@.len() == 19 && "MUSICBRAINZ_TRACKID"@[0] == 'M' && "MUSICBRAINZ_TRACKID"@[1] == 'U' && "MUSICBRAINZ_TRACKID"@[12] == 'T');
    reveal_strlit("http://musicbrainz.org");
    assert("http://musicbrainz.org"@.len() == 22 && "http://musicbrainz.org"@[0] == 'h' && "http://musicbrainz.org"@[1] == 't' && "http://musicbrainz.org"@[12] == 'b');
}

} // verus!
