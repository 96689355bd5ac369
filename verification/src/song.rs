//! The "current song" record and how a queue snapshot updates it.
//!
//! The application keeps one `CurrentSong` record and refreshes it from the
//! head of the remote queue snapshot whenever a queue-change signal arrives.
//! The snapshot itself is fetched and parsed outside the library; here the
//! already-parsed items update the record: the head item's song supplies the
//! title and artist, a free-form "nonlist" entry of the shape
//! `title - artist` is split on its first separator, and an empty snapshot
//! leaves the record as it was.

use vstd::prelude::*;

verus! {

/// The record the application keeps about the song being played.
#[derive(Clone, Debug)]
pub struct CurrentSong {
    pub title: String,
    pub artist: String,
    pub note: String,
    pub is_played: bool,
    pub request_id: i32,
    pub timestamp_index: i32,
    pub timestamps: Vec<i32>,
}

impl Default for CurrentSong {
    /// An empty record: no song, nothing played, no timestamps.
    fn default() -> (s: Self)
        ensures
            s.title@ == Seq::<char>::empty(),
            s.artist@ == Seq::<char>::empty(),
            s.note@ == Seq::<char>::empty(),
            !s.is_played,
            s.request_id == 0,
            s.timestamp_index == 0,
            s.timestamps@ == Seq::<i32>::empty(),
    {
        CurrentSong {
            title: String::new(),
            artist: String::new(),
            note: String::new(),
            is_played: false,
            request_id: 0,
            timestamp_index: 0,
            timestamps: Vec::new(),
        }
    }
}

/// A song known to the remote list.
#[derive(Clone, Debug)]
pub struct Song {
    pub id: i32,
    pub title: String,
    pub artist: String,
    pub created_at: String,
    pub comment: Option<String>,
    pub capo: String,
    pub attribute_ids: Vec<i32>,
}

/// One request attached to a queue item.
#[derive(Clone, Debug)]
pub struct Requests {
    pub id: i32,
    pub name: String,
    pub note: Option<String>,
    pub amount: i32,
    pub source: String,
    pub in_chat: bool,
}

/// One entry of the remote queue snapshot.
#[derive(Clone, Debug)]
pub struct QueueItem {
    pub id: i32,
    pub note: String,
    pub bot_request_by: Option<String>,
    pub nonlist_song: Option<String>,
    pub donation_amount: i32,
    pub created_at: String,
    pub song_id: Option<i32>,
    pub streamer_id: i32,
    pub song: Option<Song>,
    pub requests: Vec<Requests>,
    pub position: i32,
}

/// The three-character separator ` - ` stands at position `i` of `s`.
pub open spec fn sep_at(s: Seq<char>, i: int) -> bool {
    0 <= i && i + 3 <= s.len() && s[i] == ' ' && s[i + 1] == '-' && s[i + 2] == ' '
}

/// The position of the first separator at or after `from`, if any.
pub open spec fn find_sep_from(s: Seq<char>, from: int) -> Option<int>
    decreases s.len() - from,
{
    if from < 0 || from + 3 > s.len() {
        None
    } else if sep_at(s, from) {
        Some(from)
    } else {
        find_sep_from(s, from + 1)
    }
}

/// Whether `s` holds the separator at all, so that splitting it yields both
/// a title and an artist.
pub open spec fn has_sep(s: Seq<char>) -> bool {
    find_sep_from(s, 0) is Some
}

/// The text before the first separator.
pub open spec fn split_title(s: Seq<char>) -> Seq<char>
    recommends
        has_sep(s),
{
    s.subrange(0, find_sep_from(s, 0)->Some_0)
}

/// The text between the first separator and the second (or the end): the
/// second field of splitting `s` on the separator.
pub open spec fn split_artist(s: Seq<char>) -> Seq<char>
    recommends
        has_sep(s),
{
    let i = find_sep_from(s, 0)->Some_0;
    match find_sep_from(s, i + 3) {
        Some(j) => s.subrange(i + 3, j),
        None => s.subrange(i + 3, s.len() as int),
    }
}

/// A found separator position lies in range, at or after where the search
/// began.
pub proof fn lemma_find_sep_some(s: Seq<char>, from: int, i: int)
    requires
        find_sep_from(s, from) == Some(i),
    ensures
        from <= i,
        sep_at(s, i),
    decreases s.len() - from,
{
    if !(from < 0 || from + 3 > s.len()) && !sep_at(s, from) {
        lemma_find_sep_some(s, from + 1, i);
    }
}

/// Scans `s` for the first separator at or after `from`.
fn find_sep(s: &str, from: usize) -> (r: Option<usize>)
    ensures
        match r {
            Some(i) => find_sep_from(s@, from as int) == Some(i as int),
            None => find_sep_from(s@, from as int) is None,
        },
{
    let n = s.unicode_len();
    let mut i = from;
    loop
        invariant
            from <= i,
            n == s@.len(),
            find_sep_from(s@, from as int) == find_sep_from(s@, i as int),
        decreases n - i,
    {
        if i >= n || n - i < 3 {
            return None;
        }
        if s.get_char(i) == ' ' && s.get_char(i + 1) == '-' && s.get_char(i + 2) == ' ' {
            assert(sep_at(s@, i as int));
            return Some(i);
        }
        assert(!sep_at(s@, i as int));
        i = i + 1;
    }
}

/// Splits `title - artist` into its first two fields.
fn split_title_artist(s: &str) -> (r: (String, String))
    requires
        has_sep(s@),
    ensures
        r.0@ == split_title(s@),
        r.1@ == split_artist(s@),
{
    let n = s.unicode_len();
    let i = match find_sep(s, 0) {
        Some(i) => i,
        None => {
            proof {
                assert(false);
            }
            0
        }
    };
    proof {
        lemma_find_sep_some(s@, 0, i as int);
    }
    let title = s.substring_char(0, i).to_owned();
    let artist = match find_sep(s, i + 3) {
        Some(j) => {
            proof {
                lemma_find_sep_some(s@, i as int + 3, j as int);
            }
            s.substring_char(i + 3, j).to_owned()
        }
        None => s.substring_char(i + 3, n).to_owned(),
    };
    (title, artist)
}

/// Whether a queue item can update the record: a free-form entry must hold
/// the separator when no listed song supplies title and artist, since both
/// fields are read out of it.
pub open spec fn item_splits_cleanly(item: QueueItem) -> bool {
    match item.nonlist_song {
        Some(entry) => item.song is Some || has_sep(entry@),
        None => true,
    }
}

/// How `r` relates to `old_song` updated by `item`: title and artist from
/// the listed song, else from splitting the free-form entry, else kept; the
/// request id and note always taken from the item; everything else kept.
pub open spec fn song_updated(item: QueueItem, old_song: CurrentSong, r: CurrentSong) -> bool {
    &&& (match item.song {
        Some(song) => r.title@ == song.title@ && r.artist@ == song.artist@,
        None => match item.nonlist_song {
            Some(entry) => r.title@ == split_title(entry@) && r.artist@ == split_artist(entry@),
            None => r.title@ == old_song.title@ && r.artist@ == old_song.artist@,
        },
    })
    &&& r.note@ == item.note@
    &&& r.request_id == item.id
    &&& r.is_played == old_song.is_played
    &&& r.timestamp_index == old_song.timestamp_index
    &&& r.timestamps@ == old_song.timestamps@
}

/// Updates the record from one queue item: the head of the snapshot.
pub fn process_song(item: &QueueItem, old_song: CurrentSong) -> (r: CurrentSong)
    requires
        item_splits_cleanly(*item),
    ensures
        song_updated(*item, old_song, r),
{
    let mut song_record = old_song;
    match &item.song {
        Some(song) => {
            song_record.title = song.title.clone();
            song_record.artist = song.artist.clone();
        }
        None => {
            match &item.nonlist_song {
                Some(entry) => {
                    let (title, artist) = split_title_artist(entry.as_str());
                    song_record.title = title;
                    song_record.artist = artist;
                }
                None => {}
            }
        }
    }
    song_record.request_id = item.id;
    song_record.note = item.note.clone();
    song_record
}

/// Refreshes the record from a whole queue snapshot: the head item updates
/// it, an empty snapshot leaves it unchanged.
pub fn update_active_song(queue: &Vec<QueueItem>, current_song: CurrentSong) -> (r: CurrentSong)
    requires
        queue@.len() > 0 ==> item_splits_cleanly(queue@[0]),
    ensures
        queue@.len() == 0 ==> r == current_song,
        queue@.len() > 0 ==> song_updated(queue@[0], current_song, r),
{
    if queue.len() > 0 {
        process_song(&queue[0], current_song)
    } else {
        current_song
    }
}

} // verus!
