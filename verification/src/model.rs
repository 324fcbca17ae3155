//! Songs and songlists as the player holds them.
use vstd::prelude::*;

verus! {

/// A song of a songlist or of a daily recommendation.
#[derive(Clone, Debug)]
pub struct Song {
    pub name: String,
    pub id: u64,
    pub singer: String,
    pub singer_id: u64,
    pub album: String,
    pub album_id: u64,
    pub duration: u64,
    pub song_url: Option<String>,
    pub quality_level: String,
    pub liked: bool,
}

/// A songlist of the user, created or subscribed.
#[derive(Clone, Debug)]
pub struct Songlist {
    pub name: String,
    pub id: u64,
    pub songs_count: usize,
    pub creator: String,
    pub subscribed: bool,
    pub special_type: u64,
    pub songs: Vec<Song>,
}

/// `special_type` of the user's "liked songs" songlist.
pub const LIKED_SONGLIST_TYPE: u64 = 5;

impl Song {
    /// A copy of this song.
    pub fn duplicate(&self) -> (r: Song)
        ensures
            r == *self,
    {
        Song {
            name: self.name.clone(),
            id: self.id,
            singer: self.singer.clone(),
            singer_id: self.singer_id,
            album: self.album.clone(),
            album_id: self.album_id,
            duration: self.duration,
            song_url: match &self.song_url {
                Some(u) => Some(u.clone()),
                None => None,
            },
            quality_level: self.quality_level.clone(),
            liked: self.liked,
        }
    }
}

/// A copy of a list of songs.
pub fn duplicate_songs(songs: &Vec<Song>) -> (r: Vec<Song>)
    ensures
        r@ == songs@,
{
    let mut r: Vec<Song> = Vec::new();
    let mut i: usize = 0;
    while i < songs.len()
        invariant
            i <= songs.len(),
            r@ == songs@.subrange(0, i as int),
        decreases songs.len() - i,
    {
        r.push(songs[i].duplicate());
        i += 1;
    }
    assert(r@ =~= songs@);
    r
}

impl Songlist {
    /// Whether `other` holds the same values as `self`.
    pub open spec fn same_as(&self, other: &Songlist) -> bool {
        &&& self.name == other.name
        &&& self.id == other.id
        &&& self.songs_count == other.songs_count
        &&& self.creator == other.creator
        &&& self.subscribed == other.subscribed
        &&& self.special_type == other.special_type
        &&& self.songs@ == other.songs@
    }

    /// A copy of this songlist.
    pub fn duplicate(&self) -> (r: Songlist)
        ensures
            r.same_as(self),
    {
        let songs = duplicate_songs(&self.songs);
        Songlist {
            name: self.name.clone(),
            id: self.id,
            songs_count: self.songs_count,
            creator: self.creator.clone(),
            subscribed: self.subscribed,
            special_type: self.special_type,
            songs,
        }
    }

    /// Whether the user created this songlist and may change it: it is neither subscribed
    /// nor the "liked songs" list.
    pub open spec fn spec_is_editable(&self) -> bool {
        !self.subscribed && self.special_type != LIKED_SONGLIST_TYPE
    }
}

} // verus!
