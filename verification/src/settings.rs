//! Player settings and the table of audio qualities.
use vstd::prelude::*;
use crate::text::{chars_eq_str, chars_of, push_str, string_of};

verus! {

/// Number of audio quality levels.
pub const QUALITY_COUNT: usize = 9;

/// The quality keys, in the order in which the settings screen cycles through them.
pub open spec fn quality_keys() -> Seq<Seq<char>> {
    seq![
        "standard"@,
        "higher"@,
        "exhigh"@,
        "lossless"@,
        "hires"@,
        "jyeffect"@,
        "sky"@,
        "dolby"@,
        "jymaster"@,
    ]
}

/// The official display name of each quality key.
pub open spec fn quality_names() -> Seq<Seq<char>> {
    seq![
        "标准"@,
        "较高"@,
        "极高"@,
        "无损"@,
        "Hi-Res"@,
        "高清臻音"@,
        "沉浸环绕声"@,
        "杜比全景声"@,
        "超清母带"@,
    ]
}

/// Position of the first entry of `keys` at or after `i` that equals `key`.
pub open spec fn first_index_from(keys: Seq<Seq<char>>, key: Seq<char>, i: nat) -> Option<int>
    decreases keys.len() - i,
{
    if i >= keys.len() {
        None
    } else if keys[i as int] == key {
        Some(i as int)
    } else {
        first_index_from(keys, key, i + 1)
    }
}

/// Position of `key` among the quality keys.
pub open spec fn quality_index(key: Seq<char>) -> Option<int> {
    first_index_from(quality_keys(), key, 0)
}

/// Whether `key` is one of the quality keys.
pub open spec fn is_quality(key: Seq<char>) -> bool {
    quality_index(key) is Some
}

/// The display name of a quality key; an unknown key is shown as it is.
pub open spec fn display_name(key: Seq<char>) -> Seq<char> {
    match quality_index(key) {
        Some(i) => quality_names()[i],
        None => key,
    }
}

/// The name a reported quality level is shown with: the official name of its key, as on the
/// settings screen; an unknown level is shown as it is.
pub open spec fn level_name(key: Seq<char>) -> Seq<char> {
    display_name(key)
}

/// The key one step away from `key` in the cycle of qualities; an unknown key counts as the first.
pub open spec fn cycled_quality(key: Seq<char>, forward: bool) -> Seq<char> {
    let i = match quality_index(key) {
        Some(i) => i,
        None => 0,
    };
    let n = QUALITY_COUNT as int;
    if forward {
        quality_keys()[(i + 1) % n]
    } else {
        quality_keys()[(i + n - 1) % n]
    }
}

pub proof fn lemma_first_index_bounds(keys: Seq<Seq<char>>, key: Seq<char>, i: nat)
    ensures
        first_index_from(keys, key, i) matches Some(j) ==> i <= j < keys.len() && keys[j] == key,
        first_index_from(keys, key, i) is None ==> forall|j: int| i <= j < keys.len() ==> keys[j] != key,
    decreases keys.len() - i,
{
    if i < keys.len() && keys[i as int] != key {
        lemma_first_index_bounds(keys, key, i + 1);
    }
}

proof fn lemma_keys_distinct()
    ensures
        forall|i: int, j: int|
            0 <= i < j < QUALITY_COUNT ==> #[trigger] quality_keys()[i] != #[trigger] quality_keys()[j],
{
    reveal_strlit("standard");
    reveal_strlit("higher");
    reveal_strlit("exhigh");
    reveal_strlit("lossless");
    reveal_strlit("hires");
    reveal_strlit("jyeffect");
    reveal_strlit("sky");
    reveal_strlit("dolby");
    reveal_strlit("jymaster");
    let k = quality_keys();
    assert forall|i: int, j: int| 0 <= i < j < QUALITY_COUNT implies #[trigger] k[i] != #[trigger] k[j] by {
        assert(k[i][0] != k[j][0] || k[i].len() != k[j].len() || k[i][1] != k[j][1] || k[i][2]
            != k[j][2]);
    }
}

/// The position of the quality key at position `j` is `j`.
pub proof fn lemma_quality_index_of_key(j: int)
    requires
        0 <= j < QUALITY_COUNT,
    ensures
        quality_index(quality_keys()[j]) == Some(j),
        is_quality(quality_keys()[j]),
{
    lemma_keys_distinct();
    lemma_first_index_bounds(quality_keys(), quality_keys()[j], 0);
    if let Some(m) = quality_index(quality_keys()[j]) {
        if m != j {
            if m < j {
                assert(quality_keys()[m] != quality_keys()[j]);
            } else {
                assert(quality_keys()[j] != quality_keys()[m]);
            }
        }
    }
}

/// Cycling always gives a quality key, and one step forward then one back (or back then
/// forward) returns to a known key.
pub proof fn lemma_cycle_round_trip(key: Seq<char>)
    ensures
        is_quality(cycled_quality(key, true)),
        is_quality(cycled_quality(key, false)),
        is_quality(key) ==> cycled_quality(cycled_quality(key, true), false) == key,
        is_quality(key) ==> cycled_quality(cycled_quality(key, false), true) == key,
{
    let n = QUALITY_COUNT as int;
    lemma_first_index_bounds(quality_keys(), key, 0);
    let i = match quality_index(key) {
        Some(i) => i,
        None => 0,
    };
    let up = (i + 1) % n;
    let down = (i + n - 1) % n;
    lemma_quality_index_of_key(up);
    lemma_quality_index_of_key(down);
    if is_quality(key) {
        assert(quality_keys()[i] == key);
        assert((up + n - 1) % n == i);
        assert((down + 1) % n == i);
    }
}

/// The quality key at position `i`.
pub fn quality_key(i: usize) -> (r: &'static str)
    requires
        i < QUALITY_COUNT,
    ensures
        r@ == quality_keys()[i as int],
{
    match i {
        0 => "standard",
        1 => "higher",
        2 => "exhigh",
        3 => "lossless",
        4 => "hires",
        5 => "jyeffect",
        6 => "sky",
        7 => "dolby",
        _ => "jymaster",
    }
}

/// The display name at position `i`.
fn quality_name(i: usize) -> (r: &'static str)
    requires
        i < QUALITY_COUNT,
    ensures
        r@ == quality_names()[i as int],
{
    match i {
        0 => "标准",
        1 => "较高",
        2 => "极高",
        3 => "无损",
        4 => "Hi-Res",
        5 => "高清臻音",
        6 => "沉浸环绕声",
        7 => "杜比全景声",
        _ => "超清母带",
    }
}

/// The position of `key` among the quality keys, if it is one.
pub fn find_quality(key: &str) -> (r: Option<usize>)
    ensures
        r matches Some(i) ==> i < QUALITY_COUNT && quality_index(key@) == Some(i as int),
        r is None ==> quality_index(key@) is None,
{
    let k = chars_of(key);
    let mut i: usize = 0;
    while i < QUALITY_COUNT
        invariant
            k@ == key@,
            i <= QUALITY_COUNT,
            quality_index(key@) == first_index_from(quality_keys(), key@, i as nat),
        decreases QUALITY_COUNT - i,
    {
        if chars_eq_str(&k, quality_key(i)) {
            return Some(i);
        }
        i += 1;
    }
    None
}

/// All quality keys, in cycling order.
pub fn download_qualities() -> (r: Vec<&'static str>)
    ensures
        r.len() == QUALITY_COUNT,
        forall|j: int| 0 <= j < QUALITY_COUNT ==> #[trigger] r@[j]@ == quality_keys()[j],
{
    let mut r: Vec<&'static str> = Vec::new();
    let mut i: usize = 0;
    while i < QUALITY_COUNT
        invariant
            i <= QUALITY_COUNT,
            r.len() == i,
            forall|j: int| 0 <= j < i ==> #[trigger] r@[j]@ == quality_keys()[j],
        decreases QUALITY_COUNT - i,
    {
        r.push(quality_key(i));
        i += 1;
    }
    r
}

/// The display name of a quality key (an unknown key is returned unchanged).
pub fn quality_display_name<'a>(key: &'a str) -> (r: &'a str)
    ensures
        r@ == display_name(key@),
{
    match find_quality(key) {
        Some(i) => quality_name(i),
        None => key,
    }
}

/// The quality key next to `key`, moving forward or backward and wrapping around;
/// an unknown key counts as the first one.
pub fn cycle_quality(key: &str, forward: bool) -> (r: &'static str)
    ensures
        r@ == cycled_quality(key@, forward),
{
    proof {
        lemma_first_index_bounds(quality_keys(), key@, 0);
    }
    let index = match find_quality(key) {
        Some(i) => i,
        None => 0,
    };
    let next = if forward {
        (index + 1) % QUALITY_COUNT
    } else {
        (index + QUALITY_COUNT - 1) % QUALITY_COUNT
    };
    quality_key(next)
}

/// The name a reported quality level is shown with: its official name (an unknown level is
/// returned unchanged).
pub fn quality_level_name(quality: &str) -> (r: String)
    ensures
        r@ == level_name(quality@),
        r@ == display_name(quality@),
{
    String::from_str(quality_display_name(quality))
}

/// `keys` joined with `sep` between consecutive entries.
pub open spec fn join(keys: Seq<Seq<char>>, sep: Seq<char>) -> Seq<char>
    decreases keys.len(),
{
    if keys.len() == 0 {
        seq![]
    } else if keys.len() == 1 {
        keys[0]
    } else {
        join(keys.drop_last(), sep) + sep + keys.last()
    }
}

/// A quality that is not one of the supported keys.
#[derive(Clone, Debug)]
pub struct InvalidQuality {
    pub quality: String,
}

impl InvalidQuality {
    /// The text this error is reported with.
    pub open spec fn spec_message(&self) -> Seq<char> {
        "invalid quality '"@ + self.quality@ + "'; supported values: "@ + join(
            quality_keys(),
            ", "@,
        )
    }

    /// The text this error is reported with.
    pub fn message(&self) -> (r: String)
        ensures
            r@ == self.spec_message(),
    {
        let mut out: Vec<char> = Vec::new();
        push_str(&mut out, "invalid quality '");
        push_str(&mut out, self.quality.as_str());
        push_str(&mut out, "'; supported values: ");
        let ghost start = out@;
        push_str(&mut out, quality_key(0));
        let mut i: usize = 1;
        while i < QUALITY_COUNT
            invariant
                1 <= i <= QUALITY_COUNT,
                out@ == start + join(quality_keys().subrange(0, i as int), ", "@),
            decreases QUALITY_COUNT - i,
        {
            proof {
                let ks = quality_keys().subrange(0, i + 1);
                assert(ks.drop_last() =~= quality_keys().subrange(0, i as int));
            }
            push_str(&mut out, ", ");
            push_str(&mut out, quality_key(i));
            proof {
                let ks = quality_keys().subrange(0, i + 1);
                assert(ks.last() == quality_keys()[i as int]);
            }
            i += 1;
        }
        assert(quality_keys().subrange(0, QUALITY_COUNT as int) =~= quality_keys());
        string_of(&out)
    }
}

/// Checks that `quality` is one of the supported keys.
pub fn validate_quality(quality: &str) -> (r: Result<(), InvalidQuality>)
    ensures
        r is Ok <==> is_quality(quality@),
        r matches Err(e) ==> e.quality@ == quality@,
{
    match find_quality(quality) {
        Some(_) => Ok(()),
        None => Err(InvalidQuality { quality: String::from_str(quality) }),
    }
}

/// The player's persistent settings.
#[derive(Clone, Debug)]
pub struct Settings {
    pub use_remote_api: bool,
    pub remote_api_url: String,
    pub download_path: String,
    pub download_quality: String,
    pub play_quality: String,
    pub download_file_name_pattern: String,
    pub download_lyric_name_pattern: String,
    pub pinned_created_songlists: Vec<u64>,
    pub pinned_subscribed_songlists: Vec<u64>,
}

/// The settings as plain values.
pub struct SettingsView {
    pub use_remote_api: bool,
    pub remote_api_url: Seq<char>,
    pub download_path: Seq<char>,
    pub download_quality: Seq<char>,
    pub play_quality: Seq<char>,
    pub download_file_name_pattern: Seq<char>,
    pub download_lyric_name_pattern: Seq<char>,
    pub pinned_created_songlists: Seq<u64>,
    pub pinned_subscribed_songlists: Seq<u64>,
}

impl View for Settings {
    type V = SettingsView;

    open spec fn view(&self) -> SettingsView {
        SettingsView {
            use_remote_api: self.use_remote_api,
            remote_api_url: self.remote_api_url@,
            download_path: self.download_path@,
            download_quality: self.download_quality@,
            play_quality: self.play_quality@,
            download_file_name_pattern: self.download_file_name_pattern@,
            download_lyric_name_pattern: self.download_lyric_name_pattern@,
            pinned_created_songlists: self.pinned_created_songlists@,
            pinned_subscribed_songlists: self.pinned_subscribed_songlists@,
        }
    }
}

/// Whether two lists of ids are equal.
pub fn ids_equal(a: &Vec<u64>, b: &Vec<u64>) -> (r: bool)
    ensures
        r == (a@ == b@),
{
    if a.len() != b.len() {
        return false;
    }
    let mut i: usize = 0;
    while i < a.len()
        invariant
            i <= a.len(),
            a.len() == b.len(),
            forall|j: int| 0 <= j < i ==> a@[j] == b@[j],
        decreases a.len() - i,
    {
        if a[i] != b[i] {
            return false;
        }
        i += 1;
    }
    assert(a@ =~= b@);
    true
}

/// Default address of the remote API.
pub open spec fn default_remote_api_url() -> Seq<char> {
    "https://ncm-api-wine.vercel.app/"@
}

/// Default download file name pattern.
pub open spec fn default_file_name_pattern() -> Seq<char> {
    "{name}-{singer}-{album}-{quality}-{id}"@
}

/// Default lyric file name pattern.
pub open spec fn default_lyric_name_pattern() -> Seq<char> {
    "{name}-Lyric"@
}

impl Settings {
    /// Whether `self` holds the default settings.
    pub open spec fn is_default(&self) -> bool {
        &&& !self.use_remote_api
        &&& self.remote_api_url@ == default_remote_api_url()
        &&& self.download_path@.len() == 0
        &&& self.download_quality@ == "jymaster"@
        &&& self.play_quality@ == "hires"@
        &&& self.download_file_name_pattern@ == default_file_name_pattern()
        &&& self.download_lyric_name_pattern@ == default_lyric_name_pattern()
        &&& self.pinned_created_songlists@.len() == 0
        &&& self.pinned_subscribed_songlists@.len() == 0
    }

    /// Whether a change from `self` to `new` touches the API settings, so that the
    /// connection to the API has to be checked again.
    pub open spec fn spec_api_changed(&self, new: &Settings) -> bool {
        self.use_remote_api != new.use_remote_api || self.remote_api_url@ != new.remote_api_url@
    }

    /// Whether a change from `self` to `new` touches the API settings.
    pub fn api_changed(&self, new: &Settings) -> (r: bool)
        ensures
            r == self.spec_api_changed(new),
    {
        self.use_remote_api != new.use_remote_api || !(self.remote_api_url == new.remote_api_url)
    }

    /// Whether `self` and `other` hold the same settings.
    pub fn same_settings(&self, other: &Settings) -> (r: bool)
        ensures
            r == (self@ == other@),
    {
        self.use_remote_api == other.use_remote_api && self.remote_api_url == other.remote_api_url
            && self.download_path == other.download_path && self.download_quality
            == other.download_quality && self.play_quality == other.play_quality
            && self.download_file_name_pattern == other.download_file_name_pattern
            && self.download_lyric_name_pattern == other.download_lyric_name_pattern
            && ids_equal(&self.pinned_created_songlists, &other.pinned_created_songlists)
            && ids_equal(&self.pinned_subscribed_songlists, &other.pinned_subscribed_songlists)
    }

    /// A copy of these settings.
    pub fn duplicate(&self) -> (r: Settings)
        ensures
            r@ == self@,
    {
        Settings {
            use_remote_api: self.use_remote_api,
            remote_api_url: self.remote_api_url.clone(),
            download_path: self.download_path.clone(),
            download_quality: self.download_quality.clone(),
            play_quality: self.play_quality.clone(),
            download_file_name_pattern: self.download_file_name_pattern.clone(),
            download_lyric_name_pattern: self.download_lyric_name_pattern.clone(),
            pinned_created_songlists: self.pinned_created_songlists.clone(),
            pinned_subscribed_songlists: self.pinned_subscribed_songlists.clone(),
        }
    }

    /// Fills empty entries with their defaults: the download path with `default_download_path`,
    /// the name patterns with the default patterns. Other entries stay as they are.
    pub fn normalize(&mut self, default_download_path: &str)
        ensures
            final(self).download_path@ == (if old(self).download_path@.len() == 0 {
                default_download_path@
            } else {
                old(self).download_path@
            }),
            final(self).download_file_name_pattern@ == (if old(
                self,
            ).download_file_name_pattern@.len() == 0 {
                default_file_name_pattern()
            } else {
                old(self).download_file_name_pattern@
            }),
            final(self).download_lyric_name_pattern@ == (if old(
                self,
            ).download_lyric_name_pattern@.len() == 0 {
                default_lyric_name_pattern()
            } else {
                old(self).download_lyric_name_pattern@
            }),
            final(self).use_remote_api == old(self).use_remote_api,
            final(self).remote_api_url@ == old(self).remote_api_url@,
            final(self).download_quality@ == old(self).download_quality@,
            final(self).play_quality@ == old(self).play_quality@,
            final(self).pinned_created_songlists@ == old(self).pinned_created_songlists@,
            final(self).pinned_subscribed_songlists@ == old(self).pinned_subscribed_songlists@,
    {
        if self.download_path.unicode_len() == 0 {
            self.download_path = String::from_str(default_download_path);
        }
        if self.download_file_name_pattern.unicode_len() == 0 {
            self.download_file_name_pattern = String::from_str(
                "{name}-{singer}-{album}-{quality}-{id}",
            );
        }
        if self.download_lyric_name_pattern.unicode_len() == 0 {
            self.download_lyric_name_pattern = String::from_str("{name}-Lyric");
        }
    }
}

impl Default for Settings {
    fn default() -> (r: Settings)
        ensures
            r.is_default(),
    {
        Settings {
            use_remote_api: false,
            remote_api_url: String::from_str("https://ncm-api-wine.vercel.app/"),
            download_path: String::new(),
            download_quality: String::from_str("jymaster"),
            play_quality: String::from_str("hires"),
            download_file_name_pattern: String::from_str("{name}-{singer}-{album}-{quality}-{id}"),
            download_lyric_name_pattern: String::from_str("{name}-Lyric"),
            pinned_created_songlists: Vec::new(),
            pinned_subscribed_songlists: Vec::new(),
        }
    }
}

/// The official Chinese name of each quality key, as pairs of key and name.
pub open spec fn official_quality_names() -> Seq<(Seq<char>, Seq<char>)> {
    seq![
        ("standard"@, "标准"@),
        ("higher"@, "较高"@),
        ("exhigh"@, "极高"@),
        ("lossless"@, "无损"@),
        ("hires"@, "Hi-Res"@),
        ("jyeffect"@, "高清臻音"@),
        ("sky"@, "沉浸环绕声"@),
        ("dolby"@, "杜比全景声"@),
        ("jymaster"@, "超清母带"@),
    ]
}

/// Every quality key is shown, on the settings screen and as a reported level, with the
/// official name paired with it; the keys are exactly those of the pairs.
pub proof fn lemma_quality_names_official()
    ensures
        official_quality_names().len() == QUALITY_COUNT,
        forall|i: int|
            0 <= i < QUALITY_COUNT ==> {
                let (k, n) = #[trigger] official_quality_names()[i];
                &&& is_quality(k)
                &&& display_name(k) == n
                &&& level_name(k) == n
            },
        forall|k: Seq<char>|
            is_quality(k) <==> exists|i: int|
                0 <= i < QUALITY_COUNT && #[trigger] official_quality_names()[i].0 == k,
{
    let o = official_quality_names();
    assert forall|i: int| 0 <= i < QUALITY_COUNT implies {
        let (k, n) = #[trigger] o[i];
        &&& is_quality(k)
        &&& display_name(k) == n
        &&& level_name(k) == n
    } by {
        lemma_quality_index_of_key(i);
        assert(o[i].0 == quality_keys()[i]);
        assert(o[i].1 == quality_names()[i]);
    }
    assert forall|k: Seq<char>| is_quality(k) <==> exists|i: int|
        0 <= i < QUALITY_COUNT && #[trigger] o[i].0 == k by {
        lemma_first_index_bounds(quality_keys(), k, 0);
        if is_quality(k) {
            let i = quality_index(k)->0;
            assert(o[i].0 == quality_keys()[i]);
        }
        if exists|i: int| 0 <= i < QUALITY_COUNT && #[trigger] o[i].0 == k {
            let i = choose|i: int| 0 <= i < QUALITY_COUNT && #[trigger] o[i].0 == k;
            assert(o[i].0 == quality_keys()[i]);
            lemma_quality_index_of_key(i);
        }
    }
}

} // verus!
