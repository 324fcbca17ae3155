//! Downloads as the player starts them: which songs go, under what label, and the summary the
//! user reads when they are done.
use vstd::prelude::*;
use crate::model::{Song, Songlist};
use crate::naming::{dec, u64_to_string};
use crate::text::{chars_of, concat2, concat3, push_str, string_of};

verus! {

/// How the download of a song ended well: the file was written, or a file of the song in the
/// asked quality was there already. Each holds the path of the file.
#[derive(Clone, Debug)]
pub enum DownloadResult {
    Downloaded(String),
    AlreadyExists(String),
}

/// Songs to download one after the other, and the label the summary names them by.
#[derive(Clone, Debug)]
pub struct DownloadJob {
    pub label: String,
    pub songs: Vec<Song>,
}

/// Downloads one song, labelled 歌曲《name》.
pub fn download_song(song: Song) -> (r: DownloadJob)
    ensures
        r.label@ == "歌曲《"@ + song.name@ + "》"@,
        r.songs@ == seq![song],
{
    let label = concat3("歌曲《", song.name.as_str(), "》");
    let mut songs: Vec<Song> = Vec::new();
    songs.push(song);
    DownloadJob { label, songs }
}

/// Downloads the songs of a playlist named `name`, labelled 歌单《name》.
pub fn download_playlist(name: String, songs: Vec<Song>) -> (r: DownloadJob)
    ensures
        r.label@ == "歌单《"@ + name@ + "》"@,
        r.songs@ == songs@,
{
    DownloadJob { label: concat3("歌单《", name.as_str(), "》"), songs }
}

/// The message shown when a download starts: of a song or of a songlist, by name.
pub fn download_started_message(song: bool, name: &str) -> (r: String)
    ensures
        r@ == (if song {
            "已开始下载歌曲《"@
        } else {
            "已开始下载歌单《"@
        }) + name@ + "》"@,
{
    if song {
        concat3("已开始下载歌曲《", name, "》")
    } else {
        concat3("已开始下载歌单《", name, "》")
    }
}

/// What `DownloadSong` does with the song under the cursor of the current screen, if any: the
/// message shown, and the download to start.
pub fn song_download_request(song: Option<Song>) -> (r: (String, Option<DownloadJob>))
    ensures
        match song {
            Some(s) => r.0@ == "已开始下载歌曲《"@ + s.name@ + "》"@ && (r.1 matches Some(j) && j.label@
                == "歌曲《"@ + s.name@ + "》"@ && j.songs@ == seq![s]),
            None => r.0@ == "当前界面没有已选择的歌曲"@ && r.1 is None,
        },
{
    match song {
        Some(s) => {
            let message = download_started_message(true, s.name.as_str());
            (message, Some(download_song(s)))
        },
        None => (String::from_str("当前界面没有已选择的歌曲"), None),
    }
}

/// What `DownloadPlaylist` does on the main screen with the current playlist `name` holding
/// `songs`: nothing for an empty playlist.
pub fn playlist_download_request(name: String, songs: Vec<Song>) -> (r: (String, Option<DownloadJob>))
    ensures
        songs@.len() == 0 ==> r.0@ == "当前播放列表为空"@ && r.1 is None,
        songs@.len() > 0 ==> r.0@ == "已开始下载歌单《"@ + name@ + "》"@ && (r.1 matches Some(j)
            && j.label@ == "歌单《"@ + name@ + "》"@ && j.songs@ == songs@),
{
    if songs.len() == 0 {
        (String::from_str("当前播放列表为空"), None)
    } else {
        let message = download_started_message(false, name.as_str());
        (message, Some(download_playlist(name, songs)))
    }
}

/// What `DownloadPlaylist` does on the daily screen with the loaded day, if any: nothing
/// unless a day with songs is loaded.
pub fn daily_download_request(loaded: Option<Songlist>) -> (r: (String, Option<DownloadJob>))
    ensures
        match loaded {
            Some(s) if s.songs@.len() > 0 => r.0@ == "已开始下载歌单《"@ + s.name@ + "》"@ && (r.1 matches Some(
                j,
            ) && j.label@ == "歌单《"@ + s.name@ + "》"@ && j.songs@ == s.songs@),
            _ => r.0@ == "请先在日推屏加载要下载的日推"@ && r.1 is None,
        },
{
    match loaded {
        Some(s) => if s.songs.len() > 0 {
            let message = download_started_message(false, s.name.as_str());
            (message, Some(download_playlist(s.name, s.songs)))
        } else {
            (String::from_str("请先在日推屏加载要下载的日推"), None)
        },
        None => (String::from_str("请先在日推屏加载要下载的日推"), None),
    }
}

/// The message shown when the songs of a songlist could not be loaded for its download.
pub fn load_failed_message(name: &str, error: &str) -> (r: String)
    ensures
        r@ == "下载歌单《"@ + name@ + "》失败："@ + error@,
{
    let head = concat3("下载歌单《", name, "》失败：");
    concat2(head.as_str(), error)
}

/// Whether `c` is an ASCII letter or digit (`char::is_ascii_alphanumeric`).
pub open spec fn is_ascii_alnum(c: char) -> bool {
    ('0' <= c && c <= '9') || ('a' <= c && c <= 'z') || ('A' <= c && c <= 'Z')
}

/// The file type the server reported, if it can name a file: not empty, ASCII letters and
/// digits only.
pub fn checked_file_type(file_type: Option<String>) -> (r: Option<String>)
    ensures
        r is Some <==> (file_type is Some && file_type->0@.len() > 0 && forall|i: int|
            0 <= i < file_type->0@.len() ==> is_ascii_alnum(#[trigger] file_type->0@[i])),
        r matches Some(u) ==> u@ == file_type->0@,
{
    match &file_type {
        Some(t) => {
            let chars = chars_of(t.as_str());
            if chars.len() == 0 {
                return None;
            }
            let mut i: usize = 0;
            while i < chars.len()
                invariant
                    i <= chars@.len(),
                    chars@ == t@,
                    file_type == Some(*t),
                    forall|j: int| 0 <= j < i ==> is_ascii_alnum(#[trigger] chars@[j]),
                decreases chars.len() - i,
            {
                let c = chars[i];
                if !(('0' <= c && c <= '9') || ('a' <= c && c <= 'z') || ('A' <= c && c <= 'Z')) {
                    assert(!is_ascii_alnum(t@[i as int]));
                    return None;
                }
                i += 1;
            }
            Some(t.clone())
        },
        None => None,
    }
}

/// How the download of one song ended, as the summary counts it.
pub enum DownloadOutcome {
    Downloaded,
    Existing,
    /// The download failed with this error text.
    Failed(Seq<char>),
}

/// How a download's result is counted.
pub open spec fn outcome_of(r: Result<DownloadResult, String>) -> DownloadOutcome {
    match r {
        Ok(DownloadResult::Downloaded(_)) => DownloadOutcome::Downloaded,
        Ok(DownloadResult::AlreadyExists(_)) => DownloadOutcome::Existing,
        Err(e) => DownloadOutcome::Failed(e@),
    }
}

/// The counts of a run of downloads, and the first error.
pub struct TallyView {
    pub downloaded: nat,
    pub existing: nat,
    pub failed: nat,
    pub first_error: Option<Seq<char>>,
}

/// The counts after one more download ended with `o`.
pub open spec fn tally_step(t: TallyView, o: DownloadOutcome) -> TallyView {
    match o {
        DownloadOutcome::Downloaded => TallyView { downloaded: t.downloaded + 1, ..t },
        DownloadOutcome::Existing => TallyView { existing: t.existing + 1, ..t },
        DownloadOutcome::Failed(e) => TallyView {
            failed: t.failed + 1,
            first_error: if t.first_error is Some {
                t.first_error
            } else {
                Some(e)
            },
            ..t
        },
    }
}

/// The counts of the downloads that ended with `outcomes`, in order.
pub open spec fn tally_of(outcomes: Seq<DownloadOutcome>) -> TallyView
    decreases outcomes.len(),
{
    if outcomes.len() == 0 {
        TallyView { downloaded: 0, existing: 0, failed: 0, first_error: None }
    } else {
        tally_step(tally_of(outcomes.drop_last()), outcomes.last())
    }
}

/// The counts of a run of downloads while it goes on.
#[derive(Clone, Debug)]
pub struct DownloadTally {
    pub downloaded: usize,
    pub existing: usize,
    pub failed: usize,
    pub first_error: Option<String>,
}

impl DownloadTally {
    /// The counts as plain values.
    pub open spec fn tally(&self) -> TallyView {
        TallyView {
            downloaded: self.downloaded as nat,
            existing: self.existing as nat,
            failed: self.failed as nat,
            first_error: match self.first_error {
                Some(e) => Some(e@),
                None => None,
            },
        }
    }

    /// No download counted yet.
    pub fn new() -> (r: Self)
        ensures
            r.tally() == tally_of(seq![]),
    {
        DownloadTally { downloaded: 0, existing: 0, failed: 0, first_error: None }
    }

    /// Counts one more download.
    pub fn record(&mut self, result: Result<DownloadResult, String>)
        requires
            old(self).downloaded + old(self).existing + old(self).failed < usize::MAX,
        ensures
            final(self).tally() == tally_step(old(self).tally(), outcome_of(result)),
            final(self).downloaded + final(self).existing + final(self).failed == old(
                self,
            ).downloaded + old(self).existing + old(self).failed + 1,
    {
        match result {
            Ok(DownloadResult::Downloaded(_)) => self.downloaded = self.downloaded + 1,
            Ok(DownloadResult::AlreadyExists(_)) => self.existing = self.existing + 1,
            Err(e) => {
                self.failed = self.failed + 1;
                if self.first_error.is_none() {
                    self.first_error = Some(e);
                }
            },
        }
    }

    /// The summary shown when the run is over, for the run labelled `label`.
    pub fn summary(&self, label: &str) -> (r: String)
        ensures
            r@ == label@ + "下载完成：成功 "@ + dec(self.downloaded as nat) + "，已存在 "@ + dec(
                self.existing as nat,
            ) + "，失败 "@ + dec(self.failed as nat) + match self.first_error {
                Some(e) => "；首个错误："@ + e@,
                None => Seq::<char>::empty(),
            },
    {
        let mut out: Vec<char> = Vec::new();
        push_str(&mut out, label);
        push_str(&mut out, "下载完成：成功 ");
        push_str(&mut out, u64_to_string(self.downloaded as u64).as_str());
        push_str(&mut out, "，已存在 ");
        push_str(&mut out, u64_to_string(self.existing as u64).as_str());
        push_str(&mut out, "，失败 ");
        push_str(&mut out, u64_to_string(self.failed as u64).as_str());
        let ghost body = out@;
        match &self.first_error {
            Some(e) => {
                push_str(&mut out, "；首个错误：");
                push_str(&mut out, e.as_str());
            },
            None => {
                assert(out@ =~= body + Seq::<char>::empty());
            },
        }
        string_of(&out)
    }
}

/// The summary of a run counts every download once, each as it ended, and reports the error
/// of the earliest failure.
pub proof fn lemma_tally_counts(outcomes: Seq<DownloadOutcome>)
    ensures
        ({
            let t = tally_of(outcomes);
            &&& t.downloaded + t.existing + t.failed == outcomes.len()
            &&& t.downloaded == outcomes.filter(|o: DownloadOutcome| o is Downloaded).len()
            &&& t.existing == outcomes.filter(|o: DownloadOutcome| o is Existing).len()
            &&& t.failed == outcomes.filter(|o: DownloadOutcome| o is Failed).len()
            &&& match t.first_error {
                None => forall|k: int| 0 <= k < outcomes.len() ==> !(#[trigger] outcomes[k] is Failed),
                Some(e) => exists|k: int|
                    0 <= k < outcomes.len() && outcomes[k] == DownloadOutcome::Failed(e) && forall|
                        j: int,
                    | 0 <= j < k ==> !(#[trigger] outcomes[j] is Failed),
            }
        }),
    decreases outcomes.len(),
{
    reveal_with_fuel(Seq::<_>::filter, 1);
    if outcomes.len() > 0 {
        let rest = outcomes.drop_last();
        lemma_tally_counts(rest);
        assert(outcomes.drop_last() == rest);
        let t0 = tally_of(rest);
        match t0.first_error {
            None => {
                if let DownloadOutcome::Failed(e) = outcomes.last() {
                    let k = outcomes.len() - 1;
                    assert(outcomes[k] == DownloadOutcome::Failed(e));
                    assert forall|j: int| 0 <= j < k implies !(#[trigger] outcomes[j] is Failed) by {
                        assert(outcomes[j] == rest[j]);
                    }
                } else {
                    assert forall|k: int| 0 <= k < outcomes.len() implies !(
                    #[trigger] outcomes[k] is Failed) by {
                        if k < outcomes.len() - 1 {
                            assert(outcomes[k] == rest[k]);
                        }
                    }
                }
            },
            Some(e) => {
                let k = choose|k: int|
                    0 <= k < rest.len() && rest[k] == DownloadOutcome::Failed(e) && forall|j: int|
                        0 <= j < k ==> !(#[trigger] rest[j] is Failed);
                assert(outcomes[k] == rest[k]);
                assert forall|j: int| 0 <= j < k implies !(#[trigger] outcomes[j] is Failed) by {
                    assert(outcomes[j] == rest[j]);
                }
            },
        }
    }
}

/// What the download of one song has just learnt, as the program around the library reports it.
#[derive(Clone, Debug)]
pub enum DownloadEvent {
    /// The download directory was searched for a finished download of the song at the asked
    /// quality: the name of the file found, if any.
    Started { local: Option<String> },
    /// The server answered with the song's resource, reporting this file type.
    ResourceReceived { file_type: Option<String> },
    /// Whether a file of the name `file_name` already is in the download directory.
    TargetChecked { file_name: String, exists: bool },
    /// The transfer into the part file of `file_name` ended with `written` bytes.
    Transferred { file_name: String, written: u64 },
    /// The part file was renamed to `file_name`.
    Renamed { file_name: String },
}

/// What the download of one song does next.
#[derive(Clone, Debug)]
pub enum DownloadAction {
    /// Ask the server for the song's resource at the asked quality.
    RequestResource,
    /// Check whether a file named `file_name` already is in the download directory.
    CheckTarget { file_name: String },
    /// Fetch the song into the part file `part_name`.
    Transfer { file_name: String, part_name: String },
    /// Rename the part file of `file_name` to `file_name`.
    Rename { file_name: String },
    /// The song is there under `file_name`: found already, or just downloaded. The lyric file
    /// is saved after this, and its failure changes nothing of the result.
    Finish { file_name: String, already_existed: bool },
    /// The download stops with this message.
    Fail(String),
}

/// Whether a reported file type can name a file: not empty, ASCII letters and digits only.
pub open spec fn valid_file_type(file_type: Option<String>) -> bool {
    file_type is Some && file_type->0@.len() > 0 && forall|i: int|
        0 <= i < file_type->0@.len() ==> is_ascii_alnum(#[trigger] file_type->0@[i])
}

/// The next step of downloading `song` at `quality` with the file name pattern `pattern`,
/// after `event`: a song found in the directory is not downloaded again; a resource without a
/// usable file type stops the download; an existing file of the built name is kept; the song is
/// fetched into `<name>.part`, an empty transfer stops the download, and the part file is then
/// renamed to the name.
pub fn next_download_action(song: &Song, quality: &str, pattern: &str, event: DownloadEvent) -> (r: DownloadAction)
    ensures
        match event {
            DownloadEvent::Started { local: Some(n) } => r matches DownloadAction::Finish {
                file_name,
                already_existed,
            } && file_name@ == n@ && already_existed,
            DownloadEvent::Started { local: None } => r is RequestResource,
            DownloadEvent::ResourceReceived { file_type } => if valid_file_type(file_type) {
                r matches DownloadAction::CheckTarget { file_name } && file_name@ == crate::naming::rendered_name(
                    song.name@,
                    song.singer@,
                    song.album@,
                    song.id,
                    quality@,
                    pattern@,
                ) + "."@ + file_type->0@
            } else {
                r matches DownloadAction::Fail(m) && m@ == "song "@ + dec(song.id as nat)
                    + " response has no valid file type"@
            },
            DownloadEvent::TargetChecked { file_name, exists } => if exists {
                r matches DownloadAction::Finish { file_name: f, already_existed } && f@ == file_name@
                    && already_existed
            } else {
                r matches DownloadAction::Transfer { file_name: f, part_name } && f@ == file_name@
                    && part_name@ == file_name@ + ".part"@
            },
            DownloadEvent::Transferred { file_name, written } => if written == 0 {
                r matches DownloadAction::Fail(m) && m@ == "song "@ + dec(song.id as nat)
                    + " download returned an empty file"@
            } else {
                r matches DownloadAction::Rename { file_name: f } && f@ == file_name@
            },
            DownloadEvent::Renamed { file_name } => r matches DownloadAction::Finish {
                file_name: f,
                already_existed,
            } && f@ == file_name@ && !already_existed,
        },
{
    match event {
        DownloadEvent::Started { local: Some(n) } => DownloadAction::Finish { file_name: n, already_existed: true },
        DownloadEvent::Started { local: None } => DownloadAction::RequestResource,
        DownloadEvent::ResourceReceived { file_type } => match checked_file_type(file_type) {
            Some(t) => DownloadAction::CheckTarget {
                file_name: crate::naming::build_download_file_name(song, quality, t.as_str(), pattern),
            },
            None => DownloadAction::Fail(
                concat3("song ", u64_to_string(song.id).as_str(), " response has no valid file type"),
            ),
        },
        DownloadEvent::TargetChecked { file_name, exists } => if exists {
            DownloadAction::Finish { file_name, already_existed: true }
        } else {
            let part_name = concat2(file_name.as_str(), ".part");
            DownloadAction::Transfer { file_name, part_name }
        },
        DownloadEvent::Transferred { file_name, written } => if written == 0 {
            DownloadAction::Fail(
                concat3("song ", u64_to_string(song.id).as_str(), " download returned an empty file"),
            )
        } else {
            DownloadAction::Rename { file_name }
        },
        DownloadEvent::Renamed { file_name } => DownloadAction::Finish { file_name, already_existed: false },
    }
}

} // verus!
