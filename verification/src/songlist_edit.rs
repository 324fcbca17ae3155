//! Changes to the user's songlists and what the user is told about them: deleting, removing a
//! song, collecting, creating, and the confirmations asked before the irreversible ones.
use vstd::prelude::*;
use crate::command::Command;
use crate::model::{Song, Songlist, LIKED_SONGLIST_TYPE};
use crate::text::{chars_eq_str, chars_of, concat2, concat3, concat5};

verus! {

/// An irreversible change waiting for the user's `y`.
#[derive(Clone, Debug)]
pub enum PendingConfirm {
    DeleteSonglist { id: u64, name: String },
    RemoveSong { songlist_id: u64, song_id: u64, song_name: String },
}

/// Drops the pending confirmation when a key other than `y` answers it; returns the message
/// the command line then shows.
pub fn cancel_confirmation(pending: &mut Option<PendingConfirm>) -> (message: String)
    ensures
        *final(pending) is None,
        message@ == "已取消"@,
{
    *pending = None;
    String::from_str("已取消")
}

/// Whether the user created `s` and may change it: neither subscribed nor "liked songs".
pub open spec fn editable(s: Songlist) -> bool {
    !s.subscribed && s.special_type != LIKED_SONGLIST_TYPE
}

/// What the songlist screen asks for when `d` is pressed on `songlist`: its deletion by name,
/// or a message saying why it cannot be deleted.
pub fn delete_request(songlist: &Songlist) -> (r: Command)
    ensures
        songlist.subscribed ==> (r matches Command::ShowMessage(m) && m@ == "不能删除收藏的歌单"@),
        !songlist.subscribed && songlist.special_type == LIKED_SONGLIST_TYPE ==> (r matches Command::ShowMessage(m)
            && m@ == "不能删除「我喜欢的音乐」"@),
        editable(*songlist) ==> (r matches Command::DeleteSonglistByName(n) && n@ == songlist.name@),
{
    if songlist.subscribed {
        Command::ShowMessage(String::from_str("不能删除收藏的歌单"))
    } else if songlist.special_type == LIKED_SONGLIST_TYPE {
        Command::ShowMessage(String::from_str("不能删除「我喜欢的音乐」"))
    } else {
        Command::DeleteSonglistByName(songlist.name.clone())
    }
}

/// What the songlist screen asks for when `d` is pressed on a song of the loaded `songlist`:
/// the song's removal (nothing when no song is under the cursor), or a message when the
/// songlist is not the user's own.
pub fn remove_song_request(songlist: &Songlist, song: Option<&Song>) -> (r: Option<Command>)
    ensures
        !editable(*songlist) ==> (r matches Some(Command::ShowMessage(m)) && m@
            == "只能对自建歌单移除歌曲"@),
        editable(*songlist) && song is None ==> r is None,
        editable(*songlist) && song is Some ==> (r matches Some(
            Command::RemoveSongFromSonglist { songlist_id, songlist_name, song_id, song_name },
        ) && songlist_id == songlist.id && songlist_name@ == songlist.name@ && song_id
            == song->0.id && song_name@ == song->0.name@),
{
    if songlist.subscribed || songlist.special_type == LIKED_SONGLIST_TYPE {
        Some(Command::ShowMessage(String::from_str("只能对自建歌单移除歌曲")))
    } else {
        match song {
            Some(song) => Some(
                Command::RemoveSongFromSonglist {
                    songlist_id: songlist.id,
                    songlist_name: songlist.name.clone(),
                    song_id: song.id,
                    song_name: song.name.clone(),
                },
            ),
            None => None,
        }
    }
}

/// The first song of `songs` with id `id`.
pub open spec fn first_song_with_id(songs: Seq<Song>, id: u64) -> Option<Song>
    decreases songs.len(),
{
    if songs.len() == 0 {
        None
    } else if songs[0].id == id {
        Some(songs[0])
    } else {
        first_song_with_id(songs.drop_first(), id)
    }
}

proof fn lemma_first_song_with_id(songs: Seq<Song>, id: u64, k: int)
    requires
        0 <= k <= songs.len(),
        k < songs.len() ==> songs[k].id == id,
        forall|j: int| 0 <= j < k ==> songs[j].id != id,
    ensures
        first_song_with_id(songs, id) == (if k < songs.len() {
            Some(songs[k])
        } else {
            None
        }),
    decreases songs.len(),
{
    if songs.len() > 0 && songs[0].id != id {
        lemma_first_song_with_id(songs.drop_first(), id, k - 1);
    }
}

/// The songs of `songs` other than those with id `id`, in order.
pub open spec fn without_song(songs: Seq<Song>, id: u64) -> Seq<Song> {
    songs.filter(|s: Song| s.id != id)
}

/// Drops the song `song_id` from the loaded `songlist` once its removal is done: every song
/// with that id goes and the count drops by one (not below zero). Returns the name of the
/// song, or an empty name when the songlist did not hold it.
pub fn drop_removed_song(songlist: &mut Songlist, song_id: u64) -> (r: String)
    ensures
        r@ == (match first_song_with_id(old(songlist).songs@, song_id) {
            Some(s) => s.name@,
            None => Seq::<char>::empty(),
        }),
        final(songlist).songs@ == without_song(old(songlist).songs@, song_id),
        final(songlist).songs_count == (if old(songlist).songs_count > 0 {
            old(songlist).songs_count - 1
        } else {
            0
        }),
        final(songlist).name@ == old(songlist).name@,
        final(songlist).id == old(songlist).id,
        final(songlist).creator@ == old(songlist).creator@,
        final(songlist).subscribed == old(songlist).subscribed,
        final(songlist).special_type == old(songlist).special_type,
{
    let ghost songs = songlist.songs@;
    let ghost keep = |s: Song| s.id != song_id;
    let mut name: Option<String> = None;
    let mut kept: Vec<Song> = Vec::new();
    let mut i: usize = 0;
    while i < songlist.songs.len()
        invariant
            i <= songlist.songs@.len(),
            songlist.songs@ == songs,
            keep == (|s: Song| s.id != song_id),
            kept@ == songs.take(i as int).filter(keep),
            match name {
                Some(n) => exists|k: int|
                    0 <= k < i && songs[k].id == song_id && n@ == songs[k].name@ && forall|j: int|
                        0 <= j < k ==> songs[j].id != song_id,
                None => forall|j: int| 0 <= j < i ==> songs[j].id != song_id,
            },
        decreases songlist.songs.len() - i,
    {
        proof {
            reveal_with_fuel(Seq::<_>::filter, 1);
            assert(songs.take(i + 1).drop_last() =~= songs.take(i as int));
        }
        if songlist.songs[i].id != song_id {
            kept.push(songlist.songs[i].duplicate());
        } else if name.is_none() {
            name = Some(songlist.songs[i].name.clone());
        }
        i += 1;
    }
    proof {
        assert(songs.take(songs.len() as int) =~= songs);
        match &name {
            Some(n) => {
                let k = choose|k: int|
                    0 <= k < songs.len() && songs[k].id == song_id && n@ == songs[k].name@
                        && forall|j: int| 0 <= j < k ==> songs[j].id != song_id;
                lemma_first_song_with_id(songs, song_id, k);
            },
            None => {
                lemma_first_song_with_id(songs, song_id, songs.len() as int);
            },
        }
    }
    songlist.songs = kept;
    songlist.songs_count = songlist.songs_count.saturating_sub(1);
    match name {
        Some(n) => n,
        None => String::new(),
    }
}

/// The message shown once a song was removed from a songlist.
pub fn removed_message(song_name: &str) -> (r: String)
    ensures
        r@ == "已从歌单移除：《"@ + song_name@ + "》"@,
{
    concat3("已从歌单移除：《", song_name, "》")
}

/// The position of the first songlist with id `id`.
pub open spec fn index_with_id(s: Seq<Songlist>, id: u64) -> Option<int>
    decreases s.len(),
{
    if s.len() == 0 {
        None
    } else if s[0].id == id {
        Some(0)
    } else {
        match index_with_id(s.drop_first(), id) {
            Some(i) => Some(i + 1),
            None => None,
        }
    }
}

proof fn lemma_index_with_id(s: Seq<Songlist>, id: u64, k: int)
    requires
        0 <= k <= s.len(),
        k < s.len() ==> s[k].id == id,
        forall|j: int| 0 <= j < k ==> s[j].id != id,
    ensures
        index_with_id(s, id) == (if k < s.len() {
            Some(k)
        } else {
            None::<int>
        }),
    decreases s.len(),
{
    if s.len() > 0 && s[0].id != id {
        lemma_index_with_id(s.drop_first(), id, k - 1);
    }
}

proof fn lemma_index_with_id_found(s: Seq<Songlist>, id: u64)
    ensures
        index_with_id(s, id) matches Some(k) ==> 0 <= k < s.len() && s[k].id == id,
    decreases s.len(),
{
    if s.len() > 0 && s[0].id != id {
        lemma_index_with_id_found(s.drop_first(), id);
    }
}

/// Position of the first songlist with id `id`.
pub fn find_songlist_by_id(songlists: &Vec<Songlist>, id: u64) -> (r: Option<usize>)
    ensures
        r matches Some(k) ==> k < songlists@.len() && songlists@[k as int].id == id
            && index_with_id(songlists@, id) == Some(k as int),
        r is None ==> index_with_id(songlists@, id) is None,
{
    let mut i: usize = 0;
    while i < songlists.len()
        invariant
            i <= songlists@.len(),
            forall|j: int| 0 <= j < i ==> songlists@[j].id != id,
        decreases songlists.len() - i,
    {
        if songlists[i].id == id {
            proof {
                lemma_index_with_id(songlists@, id, i as int);
            }
            return Some(i);
        }
        i += 1;
    }
    proof {
        lemma_index_with_id(songlists@, id, songlists@.len() as int);
    }
    None
}

/// The songlist count after a song was added (one more) or removed (one less, not below
/// zero).
pub open spec fn adjusted_count(count: usize, add: bool) -> usize {
    if add {
        (count + 1) as usize
    } else if count > 0 {
        (count - 1) as usize
    } else {
        0
    }
}

/// Counts a song in or out of the first songlist with id `id`, as the server did, so that the
/// list shows the change before it is loaded again; nothing else changes.
pub fn adjust_songs_count(songlists: &mut Vec<Songlist>, id: u64, add: bool)
    requires
        add ==> forall|j: int|
            0 <= j < old(songlists)@.len() && old(songlists)@[j].id == id
                ==> old(songlists)@[j].songs_count < usize::MAX,
    ensures
        final(songlists)@.len() == old(songlists)@.len(),
        forall|j: int|
            0 <= j < old(songlists)@.len() && Some(j) != index_with_id(old(songlists)@, id)
                ==> #[trigger] final(songlists)@[j] == old(songlists)@[j],
        index_with_id(old(songlists)@, id) matches Some(k) ==> ({
            let (a, b) = (final(songlists)@[k], old(songlists)@[k]);
            &&& a.songs_count == adjusted_count(b.songs_count, add)
            &&& a.name == b.name && a.id == b.id && a.creator == b.creator && a.subscribed
                == b.subscribed && a.special_type == b.special_type && a.songs == b.songs
        }),
{
    proof {
        lemma_index_with_id_found(songlists@, id);
    }
    match find_songlist_by_id(songlists, id) {
        Some(k) => {
            let ghost before = songlists@;
            let mut s = songlists.remove(k);
            if add {
                s.songs_count = s.songs_count + 1;
            } else {
                s.songs_count = s.songs_count.saturating_sub(1);
            }
            songlists.insert(k, s);
            assert(songlists@ =~= before.update(k as int, s));

        },
        None => {},
    }
}

/// The songlists other than those with id `id`, in order.
pub open spec fn without_songlist(s: Seq<Songlist>, id: u64) -> Seq<Songlist> {
    s.filter(|x: Songlist| x.id != id)
}

/// Drops every songlist with id `id` once its deletion is done.
pub fn remove_songlist(songlists: &mut Vec<Songlist>, id: u64)
    ensures
        final(songlists)@ == without_songlist(old(songlists)@, id),
{
    let ghost all = songlists@;
    let ghost keep = |x: Songlist| x.id != id;
    let mut rest: Vec<Songlist> = Vec::new();
    std::mem::swap(&mut rest, songlists);
    let n = rest.len();
    let mut i: usize = 0;
    while rest.len() > 0
        invariant
            all.len() == n,
            i <= all.len(),
            i + rest@.len() == all.len(),
            rest@ == all.skip(i as int),
            keep == (|x: Songlist| x.id != id),
            songlists@ == all.take(i as int).filter(keep),
        decreases rest.len(),
    {
        proof {
            reveal_with_fuel(Seq::<_>::filter, 1);
            assert(all.take(i + 1).drop_last() =~= all.take(i as int));
            assert(all.take(i + 1).last() == all[i as int]);
        }
        let x = rest.remove(0);
        assert(x == all[i as int]);
        if x.id != id {
            songlists.push(x);
        }
        assert(rest@ =~= all.skip(i + 1));
        i += 1;
    }
    assert(all.take(i as int) =~= all);
}

/// Where a songlist the user just created goes: right after "liked songs" when that comes
/// first, as the server orders them, else at the front.
pub fn created_songlist_position(songlists: &Vec<Songlist>) -> (r: usize)
    ensures
        r == (if songlists@.len() > 0 && songlists@[0].special_type == LIKED_SONGLIST_TYPE {
            1usize
        } else {
            0usize
        }),
{
    if songlists.len() > 0 && songlists[0].special_type == LIKED_SONGLIST_TYPE {
        1
    } else {
        0
    }
}

/// Adds the songlist the user just created, named `name` with id `id`, empty, owned by
/// `creator`, where `created_songlist_position` puts it.
pub fn insert_created_songlist(songlists: &mut Vec<Songlist>, name: String, id: u64, creator: String)
    ensures
        ({
            let k = if old(songlists)@.len() > 0 && old(songlists)@[0].special_type
                == LIKED_SONGLIST_TYPE {
                1int
            } else {
                0int
            };
            let s = final(songlists)@[k];
            &&& final(songlists)@.len() == old(songlists)@.len() + 1
            &&& final(songlists)@.take(k) == old(songlists)@.take(k)
            &&& final(songlists)@.skip(k + 1) == old(songlists)@.skip(k)
            &&& s.name@ == name@ && s.id == id && s.songs_count == 0 && s.creator@ == creator@
                && !s.subscribed && s.special_type == 0 && s.songs@.len() == 0
        }),
{
    let k = created_songlist_position(songlists);
    let s = Songlist {
        name,
        id,
        songs_count: 0,
        creator,
        subscribed: false,
        special_type: 0,
        songs: Vec::new(),
    };
    songlists.insert(k, s);
    proof {
        assert(songlists@.take(k as int) =~= old(songlists)@.take(k as int));
        assert(songlists@.skip(k + 1) =~= old(songlists)@.skip(k as int));
    }
}

/// The position of the first songlist named `name`.
pub open spec fn index_with_name(s: Seq<Songlist>, name: Seq<char>) -> Option<int>
    decreases s.len(),
{
    if s.len() == 0 {
        None
    } else if s[0].name@ == name {
        Some(0)
    } else {
        match index_with_name(s.drop_first(), name) {
            Some(i) => Some(i + 1),
            None => None,
        }
    }
}

/// The position of the first songlist named `name` that the user may change.
pub open spec fn index_editable_named(s: Seq<Songlist>, name: Seq<char>) -> Option<int>
    decreases s.len(),
{
    if s.len() == 0 {
        None
    } else if s[0].name@ == name && editable(s[0]) {
        Some(0)
    } else {
        match index_editable_named(s.drop_first(), name) {
            Some(i) => Some(i + 1),
            None => None,
        }
    }
}

proof fn lemma_index_named(s: Seq<Songlist>, name: Seq<char>, only_editable: bool, k: int)
    requires
        0 <= k <= s.len(),
        k < s.len() ==> s[k].name@ == name && (only_editable ==> editable(s[k])),
        forall|j: int|
            0 <= j < k ==> !(s[j].name@ == name && (only_editable ==> editable(s[j]))),
    ensures
        only_editable ==> index_editable_named(s, name) == (if k < s.len() {
            Some(k)
        } else {
            None::<int>
        }),
        !only_editable ==> index_with_name(s, name) == (if k < s.len() {
            Some(k)
        } else {
            None::<int>
        }),
    decreases s.len(),
{
    if s.len() > 0 && !(s[0].name@ == name && (only_editable ==> editable(s[0]))) {
        lemma_index_named(s.drop_first(), name, only_editable, k - 1);
    }
}

proof fn lemma_index_named_found(s: Seq<Songlist>, name: Seq<char>)
    ensures
        index_with_name(s, name) matches Some(k) ==> 0 <= k < s.len() && s[k].name@ == name,
        index_editable_named(s, name) matches Some(k) ==> 0 <= k < s.len() && s[k].name@ == name
            && editable(s[k]),
    decreases s.len(),
{
    if s.len() > 0 {
        lemma_index_named_found(s.drop_first(), name);
    }
}

/// Position of the first songlist named `name`, or of the first such songlist the user may
/// change when `only_editable` is set.
pub fn find_songlist_by_name(songlists: &Vec<Songlist>, name: &str, only_editable: bool) -> (r:
    Option<usize>)
    ensures
        r matches Some(k) ==> k < songlists@.len(),
        !only_editable ==> (match r {
            Some(k) => index_with_name(songlists@, name@) == Some(k as int),
            None => index_with_name(songlists@, name@) is None,
        }),
        only_editable ==> (match r {
            Some(k) => index_editable_named(songlists@, name@) == Some(k as int),
            None => index_editable_named(songlists@, name@) is None,
        }),
{
    let mut i: usize = 0;
    while i < songlists.len()
        invariant
            i <= songlists@.len(),
            forall|j: int|
                0 <= j < i ==> !(songlists@[j].name@ == name@ && (only_editable ==> editable(
                    songlists@[j],
                ))),
        decreases songlists.len() - i,
    {
        let s = &songlists[i];
        let matches_name = chars_eq_str(&chars_of(s.name.as_str()), name);
        if matches_name && (!only_editable || (!s.subscribed && s.special_type
            != LIKED_SONGLIST_TYPE)) {
            proof {
                lemma_index_named(songlists@, name@, only_editable, i as int);
            }
            return Some(i);
        }
        i += 1;
    }
    proof {
        lemma_index_named(songlists@, name@, only_editable, songlists@.len() as int);
    }
    None
}

/// What is done when the user asks to delete the songlist named `name`: a confirmation is
/// asked for the first songlist of that name when the user may delete it, otherwise a
/// message says why not.
pub fn delete_by_name(songlists: &Vec<Songlist>, name: &str) -> (r: (Option<PendingConfirm>, String))
    ensures
        match index_with_name(songlists@, name@) {
            None => r.0 is None && r.1@ == "未找到歌单《"@ + name@ + "》"@,
            Some(k) => {
                let s = songlists@[k];
                if s.subscribed {
                    r.0 is None && r.1@ == "不能删除收藏的歌单"@
                } else if s.special_type == LIKED_SONGLIST_TYPE {
                    r.0 is None && r.1@ == "不能删除「我喜欢的音乐」"@
                } else {
                    (r.0 matches Some(PendingConfirm::DeleteSonglist { id, name: n }) && id == s.id
                        && n@ == s.name@) && r.1@ == "删除歌单《"@ + s.name@ + "》？[y/N]"@
                }
            },
        },
{
    proof {
        lemma_index_named_found(songlists@, name@);
    }
    match find_songlist_by_name(songlists, name, false) {
        None => (None, concat3("未找到歌单《", name, "》")),
        Some(k) => {
            let s = &songlists[k];
            if s.subscribed {
                (None, String::from_str("不能删除收藏的歌单"))
            } else if s.special_type == LIKED_SONGLIST_TYPE {
                (None, String::from_str("不能删除「我喜欢的音乐」"))
            } else {
                let message = concat3("删除歌单《", s.name.as_str(), "》？[y/N]");
                (Some(PendingConfirm::DeleteSonglist { id: s.id, name: s.name.clone() }), message)
            }
        },
    }
}

/// The confirmation asked before a song is removed from a songlist.
pub fn confirm_song_removal(songlist_id: u64, songlist_name: &str, song_id: u64, song_name: String) -> (r: (
    PendingConfirm,
    String,
))
    ensures
        r.0 matches PendingConfirm::RemoveSong { songlist_id: a, song_id: b, song_name: n } && a
            == songlist_id && b == song_id && n@ == song_name@,
        r.1@ == "从《"@ + songlist_name@ + "》移除《"@ + song_name@ + "》？[y/N]"@,
{
    let message = concat5("从《", songlist_name, "》移除《", song_name.as_str(), "》？[y/N]");
    (PendingConfirm::RemoveSong { songlist_id, song_id, song_name }, message)
}

/// What is done when the user asks to remove the song under the cursor from the current
/// playlist `current` (the songlist it was loaded from, if any): the removal is asked for, or a
/// message says why it cannot be done.
pub fn current_playlist_removal(song: Option<&Song>, current: Option<&Songlist>) -> (r: Result<
    Command,
    String,
>)
    ensures
        song is None ==> (r matches Err(m) && m@ == "当前没有已选择的歌曲"@),
        song is Some && current is None ==> (r matches Err(m) && m@ == "当前播放列表不支持移除歌曲"@),
        song is Some && current is Some && current->0.subscribed ==> (r matches Err(m) && m@
            == "不能从收藏的歌单移除歌曲"@),
        song is Some && current is Some && !current->0.subscribed && current->0.special_type
            == LIKED_SONGLIST_TYPE ==> (r matches Err(m) && m@ == "不能从「我喜欢的音乐」移除歌曲"@),
        song is Some && current is Some && editable(*current->0) ==> (r matches Ok(
            Command::RemoveSongFromSonglist { songlist_id, songlist_name, song_id, song_name },
        ) && songlist_id == current->0.id && songlist_name@ == current->0.name@ && song_id
            == song->0.id && song_name@ == song->0.name@),
{
    match song {
        None => Err(String::from_str("当前没有已选择的歌曲")),
        Some(song) => match current {
            None => Err(String::from_str("当前播放列表不支持移除歌曲")),
            Some(c) => if c.subscribed {
                Err(String::from_str("不能从收藏的歌单移除歌曲"))
            } else if c.special_type == LIKED_SONGLIST_TYPE {
                Err(String::from_str("不能从「我喜欢的音乐」移除歌曲"))
            } else {
                Ok(
                    Command::RemoveSongFromSonglist {
                        songlist_id: c.id,
                        songlist_name: c.name.clone(),
                        song_id: song.id,
                        song_name: song.name.clone(),
                    },
                )
            },
        },
    }
}

/// The message shown once the current song was collected into (`add`) or removed from a
/// songlist.
pub fn collection_message(add: bool, song_name: &str, songlist_name: &str) -> (r: String)
    ensures
        r@ == (if add {
            "已收藏"@
        } else {
            "已取消收藏"@
        }) + "：《"@ + song_name@ + "》→《"@ + songlist_name@ + "》"@,
{
    let verb = if add {
        "已收藏"
    } else {
        "已取消收藏"
    };
    let head = concat3(verb, "：《", song_name);
    let middle = concat3(head.as_str(), "》→《", songlist_name);
    concat2(middle.as_str(), "》")
}

/// The message shown when no songlist named `name` can take the current song.
pub fn no_collection_target_message(name: &str) -> (r: String)
    ensures
        r@ == "未找到可操作的歌单《"@ + name@ + "》（仅支持自建歌单）"@,
{
    concat3("未找到可操作的歌单《", name, "》（仅支持自建歌单）")
}

/// Whether the current song is to be liked: as asked, or the opposite of how it is now when
/// the command toggles.
pub fn like_target(requested: Option<bool>, liked: bool) -> (r: bool)
    ensures
        r == (match requested {
            Some(b) => b,
            None => !liked,
        }),
{
    match requested {
        Some(b) => b,
        None => !liked,
    }
}

/// The message shown once a song was liked or unliked.
pub fn like_message(like: bool, song_name: &str) -> (r: String)
    ensures
        r@ == (if like {
            "已喜欢"@
        } else {
            "已取消喜欢"@
        }) + "："@ + song_name@,
{
    let verb = if like {
        "已喜欢"
    } else {
        "已取消喜欢"
    };
    concat3(verb, "：", song_name)
}

/// The songlist a loaded day of recommendations is played as: named `name`, holding `songs`,
/// with id 0 since the server knows no such list.
pub fn daily_songlist(name: String, songs: Vec<Song>) -> (r: Songlist)
    ensures
        r.name@ == name@,
        r.id == 0,
        r.songs_count == songs@.len(),
        r.creator@.len() == 0,
        !r.subscribed,
        r.special_type == 0,
        r.songs@ == songs@,
{
    let count = songs.len();
    Songlist {
        name,
        id: 0,
        songs_count: count,
        creator: String::new(),
        subscribed: false,
        special_type: 0,
        songs,
    }
}

} // verus!
