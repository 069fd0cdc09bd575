//! The values of the protocol: dynamic data, playlists and commands.

use vstd::prelude::*;
use serde_json::Value;
use crate::error::MpvError;
use crate::ipc::MpvIpcCommand;
use crate::text::{decimal, str_eq, usize_to_text};

verus! {

/// One entry of the player's playlist.
#[derive(Debug, Clone, PartialEq, Eq)]
pub struct PlaylistEntry {
    /// Position of the entry in the playlist it was decoded from.
    pub id: usize,
    pub filename: String,
    pub title: Option<String>,
    pub current: bool,
}

/// What a [`PlaylistEntry`] holds.
pub struct PlaylistEntryView {
    pub id: usize,
    pub filename: Seq<char>,
    pub title: Option<Seq<char>>,
    pub current: bool,
}

impl View for PlaylistEntry {
    type V = PlaylistEntryView;

    open spec fn view(&self) -> PlaylistEntryView {
        PlaylistEntryView {
            id: self.id,
            filename: self.filename@,
            title: match self.title {
                Some(t) => Some(t@),
                None => None,
            },
            current: self.current,
        }
    }
}

/// The player's playlist, in order.
#[derive(Debug, Clone, PartialEq, Eq)]
pub struct Playlist(pub Vec<PlaylistEntry>);

/// What the entries of a playlist hold, in order.
pub open spec fn entries_view(s: Seq<PlaylistEntry>) -> Seq<PlaylistEntryView> {
    Seq::new(s.len(), |i: int| s[i]@)
}

/// Any value that the player can send. A double is kept as its IEEE-754 bit
/// pattern; a map is kept as a list of entries whose keys are distinct.
#[derive(Debug, PartialEq)]
pub enum MpvDataType {
    Array(Vec<MpvDataType>),
    Bool(bool),
    Double(u64),
    HashMap(Vec<MapEntry>),
    Null,
    MinusOne,
    Playlist(Playlist),
    String(String),
    Usize(usize),
}

/// One entry of a map of dynamic values.
#[derive(Debug, PartialEq)]
pub struct MapEntry {
    pub key: String,
    pub value: MpvDataType,
}

/// The mathematical content of an [`MpvDataType`]: the entries of a map are
/// a map proper, without an order.
pub enum DataView {
    Array(Seq<DataView>),
    Bool(bool),
    Double(u64),
    HashMap(Map<Seq<char>, DataView>),
    Null,
    MinusOne,
    Playlist(Seq<PlaylistEntryView>),
    String(Seq<char>),
    Usize(usize),
}

/// Whether some entry of the list has the key.
pub open spec fn has_key(e: Seq<MapEntry>, k: Seq<char>) -> bool {
    exists|i: int| 0 <= i < e.len() && (#[trigger] e[i]).key@ == k
}

/// The position of an entry with the key, where there is one.
pub open spec fn key_index(e: Seq<MapEntry>, k: Seq<char>) -> int {
    choose|i: int| 0 <= i < e.len() && (#[trigger] e[i]).key@ == k
}

/// Whether no two entries of the list share a key.
pub open spec fn distinct_keys(e: Seq<MapEntry>) -> bool {
    forall|i: int, j: int| 0 <= i < j < e.len() ==> (#[trigger] e[i]).key@ != (#[trigger] e[j]).key@
}

/// What a dynamic value holds.
pub open spec fn data_view(d: MpvDataType) -> DataView
    decreases d,
{
    match d {
        MpvDataType::Array(v) => DataView::Array(
            Seq::new(
                v@.len(),
                |i: int|
                    if 0 <= i < v@.len() {
                        data_view(v@[i])
                    } else {
                        DataView::Null
                    },
            ),
        ),
        MpvDataType::Bool(b) => DataView::Bool(b),
        MpvDataType::Double(bits) => DataView::Double(bits),
        MpvDataType::HashMap(e) => DataView::HashMap(
            Map::new(
                |k: Seq<char>| has_key(e@, k),
                |k: Seq<char>|
                    if 0 <= key_index(e@, k) < e@.len() {
                        data_view(e@[key_index(e@, k)].value)
                    } else {
                        DataView::Null
                    },
            ),
        ),
        MpvDataType::Null => DataView::Null,
        MpvDataType::MinusOne => DataView::MinusOne,
        MpvDataType::Playlist(p) => DataView::Playlist(entries_view(p.0@)),
        MpvDataType::String(s) => DataView::String(s@),
        MpvDataType::Usize(n) => DataView::Usize(n),
    }
}

impl View for MpvDataType {
    type V = DataView;

    open spec fn view(&self) -> DataView {
        data_view(*self)
    }
}

/// The map that a list of entries with distinct keys stands for.
pub open spec fn entries_map(e: Seq<MapEntry>) -> Map<Seq<char>, DataView> {
    Map::new(
        |k: Seq<char>| has_key(e, k),
        |k: Seq<char>|
            if 0 <= key_index(e, k) < e.len() {
                e[key_index(e, k)].value@
            } else {
                DataView::Null
            },
    )
}

/// Whether the entries have distinct keys and well-formed values.
pub open spec fn entries_wf(e: Seq<MapEntry>) -> bool {
    distinct_keys(e) && forall|i: int| 0 <= i < e.len() ==> (#[trigger] e[i]).value.wf()
}

/// The view of a map value is the map of its entries.
pub proof fn lemma_view_of_map(e: Vec<MapEntry>)
    ensures
        MpvDataType::HashMap(e)@ == DataView::HashMap(entries_map(e@)),
        MpvDataType::HashMap(e).wf() == entries_wf(e@),
{
    let d = MpvDataType::HashMap(e);
    assert(d@ == DataView::HashMap(entries_map(e@))) by {
        assert(d@->HashMap_0 =~= entries_map(e@));
    }
    assert(d.wf() == entries_wf(e@));
}

/// The view of an array value is the sequence of its elements' views.
pub proof fn lemma_view_of_array(v: Vec<MpvDataType>)
    ensures
        MpvDataType::Array(v)@ == DataView::Array(Seq::new(v@.len(), |i: int| v@[i]@)),
        MpvDataType::Array(v).wf() == (forall|i: int| 0 <= i < v@.len() ==> (#[trigger] v@[i]).wf()),
{
    let d = MpvDataType::Array(v);
    assert(d@ == DataView::Array(Seq::new(v@.len(), |i: int| v@[i]@))) by {
        assert(d@->Array_0 =~= Seq::new(v@.len(), |i: int| v@[i]@));
    }
    assert(d.wf() == (forall|i: int| 0 <= i < v@.len() ==> (#[trigger] v@[i]).wf()));
}

impl MpvDataType {
    /// Whether every map inside the value has distinct keys.
    pub open spec fn wf(&self) -> bool
        decreases self,
    {
        match self {
            MpvDataType::Array(v) => forall|i: int| 0 <= i < v@.len() ==> (#[trigger] v@[i]).wf(),
            MpvDataType::HashMap(e) => distinct_keys(e@) && forall|i: int|
                0 <= i < e@.len() ==> (#[trigger] e@[i]).value.wf(),
            _ => true,
        }
    }
}

/// The value stored under a key that the entries have.
pub open spec fn field(e: Seq<MapEntry>, k: Seq<char>) -> MpvDataType {
    e[key_index(e, k)].value
}

/// The value stored under a key, if the entries have the key.
pub fn find_entry<'a>(entries: &'a Vec<MapEntry>, key: &str) -> (r: Option<&'a MpvDataType>)
    requires
        distinct_keys(entries@),
    ensures
        match r {
            Some(v) => has_key(entries@, key@) && *v == field(entries@, key@),
            None => !has_key(entries@, key@),
        },
{
    let mut i: usize = 0;
    while i < entries.len()
        invariant
            i <= entries@.len(),
            distinct_keys(entries@),
            forall|a: int| 0 <= a < i ==> (#[trigger] entries@[a]).key@ != key@,
        decreases entries.len() - i,
    {
        if str_eq(entries[i].key.as_str(), key) {
            proof {
                let c = key_index(entries@, key@);
                assert(entries@[i as int].key@ == key@);
                assert(entries@[c].key@ == key@);
                if c < i {
                    assert(entries@[c].key@ != entries@[i as int].key@);
                }
                if i < c {
                    assert(entries@[i as int].key@ != entries@[c].key@);
                }
            }
            return Some(&entries[i].value);
        }
        i += 1;
    }
    None
}

/// Two lists of entries with the same keys and values, position by
/// position, stand for the same map where the keys of one are distinct.
pub proof fn lemma_entries_map_eq(a: Seq<MapEntry>, b: Seq<MapEntry>)
    requires
        distinct_keys(a),
        a.len() == b.len(),
        forall|i: int| 0 <= i < a.len() ==> (#[trigger] b[i]).key@ == a[i].key@ && b[i].value@ == a[i].value@,
    ensures
        distinct_keys(b),
        entries_map(b) == entries_map(a),
{
    assert forall|i: int, j: int| 0 <= i < j < b.len() implies (#[trigger] b[i]).key@ != (
    #[trigger] b[j]).key@ by {
        assert(a[i].key@ != a[j].key@);
    }
    assert forall|k: Seq<char>| has_key(a, k) == has_key(b, k) by {
        if has_key(a, k) {
            let i = key_index(a, k);
            assert(b[i].key@ == k);
        }
        if has_key(b, k) {
            let i = key_index(b, k);
            assert(b[i].key@ == a[i].key@);
            assert(a[i].key@ == k);
        }
    }
    assert forall|k: Seq<char>| has_key(a, k) implies entries_map(a)[k] == entries_map(b)[k] by {
        let i = key_index(a, k);
        let j = key_index(b, k);
        assert(b[i].key@ == k);
        assert(b[j].key@ == a[j].key@);
        if i < j {
            assert(a[i].key@ != a[j].key@);
        }
        if j < i {
            assert(a[j].key@ != a[i].key@);
        }
    }
    assert(entries_map(b) =~= entries_map(a));
}

impl MpvDataType {
    /// A copy of the value.
    pub fn duplicate(&self) -> (r: MpvDataType)
        requires
            self.wf(),
        ensures
            r@ == self@,
            r.wf(),
        decreases self,
    {
        match self {
            MpvDataType::Array(v) => {
                let mut items: Vec<MpvDataType> = Vec::new();
                let mut i: usize = 0;
                while i < v.len()
                    invariant
                        i <= v@.len(),
                        items@.len() == i,
                        self.wf(),
                        self == MpvDataType::Array(*v),
                        forall|a: int|
                            0 <= a < i ==> (#[trigger] items@[a])@ == v@[a]@ && items@[a].wf(),
                    decreases v.len() - i,
                {
                    proof {
                        lemma_view_of_array(*v);
                        assert(v@[i as int].wf());
                    }
                    items.push(v[i].duplicate());
                    i += 1;
                }
                proof {
                    lemma_view_of_array(*v);
                    lemma_view_of_array(items);
                    assert(Seq::new(items@.len(), |a: int| items@[a]@) =~= Seq::new(
                        v@.len(),
                        |a: int| v@[a]@,
                    ));
                }
                MpvDataType::Array(items)
            },
            MpvDataType::Bool(b) => MpvDataType::Bool(*b),
            MpvDataType::Double(bits) => MpvDataType::Double(*bits),
            MpvDataType::HashMap(e) => {
                let mut entries: Vec<MapEntry> = Vec::new();
                let mut i: usize = 0;
                while i < e.len()
                    invariant
                        i <= e@.len(),
                        entries@.len() == i,
                        self.wf(),
                        self == MpvDataType::HashMap(*e),
                        forall|a: int|
                            0 <= a < i ==> {
                                &&& (#[trigger] entries@[a]).key@ == e@[a].key@
                                &&& entries@[a].value@ == e@[a].value@
                                &&& entries@[a].value.wf()
                            },
                    decreases e.len() - i,
                {
                    proof {
                        lemma_view_of_map(*e);
                        assert(e@[i as int].value.wf());
                    }
                    entries.push(MapEntry { key: e[i].key.clone(), value: e[i].value.duplicate() });
                    i += 1;
                }
                proof {
                    lemma_view_of_map(*e);
                    lemma_view_of_map(entries);
                    lemma_entries_map_eq(e@, entries@);
                }
                MpvDataType::HashMap(entries)
            },
            MpvDataType::Null => MpvDataType::Null,
            MpvDataType::MinusOne => MpvDataType::MinusOne,
            MpvDataType::Playlist(p) => {
                let mut entries: Vec<PlaylistEntry> = Vec::new();
                let mut i: usize = 0;
                while i < p.0.len()
                    invariant
                        i <= p.0@.len(),
                        entries@.len() == i,
                        forall|a: int| 0 <= a < i ==> (#[trigger] entries@[a])@ == p.0@[a]@,
                    decreases p.0.len() - i,
                {
                    let entry = &p.0[i];
                    let title = match &entry.title {
                        Some(t) => Some(t.clone()),
                        None => None,
                    };
                    entries.push(
                        PlaylistEntry {
                            id: entry.id,
                            filename: entry.filename.clone(),
                            title,
                            current: entry.current,
                        },
                    );
                    i += 1;
                }
                proof {
                    assert(entries_view(entries@) =~= entries_view(p.0@));
                }
                MpvDataType::Playlist(Playlist(entries))
            },
            MpvDataType::String(s) => MpvDataType::String(s.clone()),
            MpvDataType::Usize(n) => MpvDataType::Usize(*n),
        }
    }
}

/// The index of the entry with a key is the position of any entry with
/// that key, where the keys are distinct.
pub proof fn lemma_key_index(e: Seq<MapEntry>, i: int)
    requires
        distinct_keys(e),
        0 <= i < e.len(),
    ensures
        has_key(e, e[i].key@),
        key_index(e, e[i].key@) == i,
{
    let k = e[i].key@;
    assert(has_key(e, k));
    let c = key_index(e, k);
    assert(e[c].key@ == k);
    if c < i {
        assert(e[c].key@ != e[i].key@);
    }
    if i < c {
        assert(e[i].key@ != e[c].key@);
    }
}

/// Whether two playlist entries hold the same.
fn same_entry(a: &PlaylistEntry, b: &PlaylistEntry) -> (r: bool)
    ensures
        r == (a@ == b@),
{
    let titles = match (&a.title, &b.title) {
        (Some(s), Some(t)) => *s == *t,
        (None, None) => true,
        _ => false,
    };
    let names = a.filename == b.filename;
    a.id == b.id && names && titles && a.current == b.current
}

/// Whether two lists of playlist entries hold the same, in the same order.
fn same_entries(a: &Vec<PlaylistEntry>, b: &Vec<PlaylistEntry>) -> (r: bool)
    ensures
        r == (entries_view(a@) == entries_view(b@)),
{
    if a.len() != b.len() {
        assert(entries_view(a@).len() != entries_view(b@).len());
        return false;
    }
    let mut i: usize = 0;
    while i < a.len()
        invariant
            i <= a@.len(),
            a@.len() == b@.len(),
            forall|k: int| 0 <= k < i ==> (#[trigger] a@[k])@ == b@[k]@,
        decreases a.len() - i,
    {
        if !same_entry(&a[i], &b[i]) {
            assert(entries_view(a@)[i as int] != entries_view(b@)[i as int]);
            return false;
        }
        i += 1;
    }
    assert(entries_view(a@) =~= entries_view(b@));
    true
}

impl MpvDataType {
    /// Whether two values hold the same: arrays element by element, maps
    /// key by key whatever the order of their entries, doubles bit by bit.
    pub fn same_as(&self, other: &MpvDataType) -> (r: bool)
        requires
            self.wf(),
            other.wf(),
        ensures
            r == (self@ == other@),
        decreases self,
    {
        match (self, other) {
            (MpvDataType::Array(a), MpvDataType::Array(b)) => {
                proof {
                    lemma_view_of_array(*a);
                    lemma_view_of_array(*b);
                }
                let ghost va = Seq::new(a@.len(), |k: int| a@[k]@);
                let ghost vb = Seq::new(b@.len(), |k: int| b@[k]@);
                if a.len() != b.len() {
                    assert(va.len() != vb.len());
                    return false;
                }
                let mut i: usize = 0;
                while i < a.len()
                    invariant
                        i <= a@.len(),
                        a@.len() == b@.len(),
                        self == MpvDataType::Array(*a),
                        self.wf(),
                        other == MpvDataType::Array(*b),
                        other.wf(),
                        va == Seq::new(a@.len(), |k: int| a@[k]@),
                        vb == Seq::new(b@.len(), |k: int| b@[k]@),
                        self@ == DataView::Array(va),
                        other@ == DataView::Array(vb),
                        forall|k: int| 0 <= k < i ==> (#[trigger] a@[k])@ == b@[k]@,
                    decreases a.len() - i,
                {
                    proof {
                        assert(a@[i as int].wf());
                        assert(b@[i as int].wf());
                    }
                    if !a[i].same_as(&b[i]) {
                        assert(va[i as int] != vb[i as int]);
                        return false;
                    }
                    i += 1;
                }
                assert(va =~= vb);
                true
            },
            (MpvDataType::Bool(a), MpvDataType::Bool(b)) => *a == *b,
            (MpvDataType::Double(a), MpvDataType::Double(b)) => *a == *b,
            (MpvDataType::HashMap(a), MpvDataType::HashMap(b)) => {
                proof {
                    lemma_view_of_map(*a);
                    lemma_view_of_map(*b);
                }
                let ghost ma = entries_map(a@);
                let ghost mb = entries_map(b@);
                let mut i: usize = 0;
                while i < a.len()
                    invariant
                        i <= a@.len(),
                        self == MpvDataType::HashMap(*a),
                        other == MpvDataType::HashMap(*b),
                        entries_wf(a@),
                        entries_wf(b@),
                        ma == entries_map(a@),
                        mb == entries_map(b@),
                        self@ == DataView::HashMap(ma),
                        other@ == DataView::HashMap(mb),
                        forall|k: int|
                            0 <= k < i ==> has_key(b@, (#[trigger] a@[k]).key@) && field(
                                b@,
                                a@[k].key@,
                            )@ == a@[k].value@,
                    decreases a.len() - i,
                {
                    proof {
                        lemma_key_index(a@, i as int);
                    }
                    let ghost key = a@[i as int].key@;
                    match find_entry(b, a[i].key.as_str()) {
                        Some(v) => {
                            proof {
                                let c = key_index(b@, key);
                                assert(b@[c].key@ == key);
                                assert(b@[c].value.wf());
                            }
                            if !a[i].value.same_as(v) {
                                assert(ma[key] != mb[key]);
                                return false;
                            }
                        },
                        None => {
                            assert(ma.contains_key(key) && !mb.contains_key(key));
                            return false;
                        },
                    }
                    i += 1;
                }
                let mut j: usize = 0;
                while j < b.len()
                    invariant
                        j <= b@.len(),
                        entries_wf(a@),
                        entries_wf(b@),
                        ma == entries_map(a@),
                        mb == entries_map(b@),
                        self@ == DataView::HashMap(ma),
                        other@ == DataView::HashMap(mb),
                        forall|k: int| 0 <= k < j ==> has_key(a@, (#[trigger] b@[k]).key@),
                    decreases b.len() - j,
                {
                    proof {
                        lemma_key_index(b@, j as int);
                    }
                    if find_entry(a, b[j].key.as_str()).is_none() {
                        let ghost key = b@[j as int].key@;
                        assert(mb.contains_key(key) && !ma.contains_key(key));
                        return false;
                    }
                    j += 1;
                }
                proof {
                    assert forall|k: Seq<char>| ma.contains_key(k) == mb.contains_key(k) by {
                        if has_key(a@, k) {
                            let c = key_index(a@, k);
                            assert(has_key(b@, a@[c].key@));
                        }
                        if has_key(b@, k) {
                            let c = key_index(b@, k);
                            assert(has_key(a@, b@[c].key@));
                        }
                    }
                    assert forall|k: Seq<char>| ma.contains_key(k) implies ma[k] == mb[k] by {
                        let c = key_index(a@, k);
                        assert(a@[c].key@ == k);
                        assert(field(b@, a@[c].key@)@ == a@[c].value@);
                    }
                    assert(ma =~= mb);
                }
                true
            },
            (MpvDataType::Null, MpvDataType::Null) => true,
            (MpvDataType::MinusOne, MpvDataType::MinusOne) => true,
            (MpvDataType::Playlist(p), MpvDataType::Playlist(q)) => same_entries(&p.0, &q.0),
            (MpvDataType::String(a), MpvDataType::String(b)) => *a == *b,
            (MpvDataType::Usize(a), MpvDataType::Usize(b)) => *a == *b,
            _ => false,
        }
    }
}

/// How a file or a list is added to the playlist.
#[derive(Debug, Clone, Copy)]
pub enum PlaylistAddOptions {
    Replace,
    Append,
}

impl PlaylistAddOptions {
    /// The word that the player expects for the option.
    pub open spec fn raw(self) -> Seq<char> {
        match self {
            PlaylistAddOptions::Replace => "replace"@,
            PlaylistAddOptions::Append => "append"@,
        }
    }

    /// The word that the player expects for the option.
    pub fn into_raw_command_part(self) -> (r: String)
        ensures
            r@ == self.raw(),
    {
        match self {
            PlaylistAddOptions::Replace => "replace".to_owned(),
            PlaylistAddOptions::Append => "append".to_owned(),
        }
    }
}

/// How the target of a seek is meant.
#[derive(Debug, Clone, Copy)]
pub enum SeekOptions {
    Relative,
    Absolute,
    RelativePercent,
    AbsolutePercent,
}

impl SeekOptions {
    /// The word that the player expects for the option.
    pub open spec fn raw(self) -> Seq<char> {
        match self {
            SeekOptions::Relative => "relative"@,
            SeekOptions::Absolute => "absolute"@,
            SeekOptions::RelativePercent => "relative-percent"@,
            SeekOptions::AbsolutePercent => "absolute-percent"@,
        }
    }

    /// The word that the player expects for the option.
    pub fn into_raw_command_part(self) -> (r: String)
        ensures
            r@ == self.raw(),
    {
        match self {
            SeekOptions::Relative => "relative".to_owned(),
            SeekOptions::Absolute => "absolute".to_owned(),
            SeekOptions::RelativePercent => "relative-percent".to_owned(),
            SeekOptions::AbsolutePercent => "absolute-percent".to_owned(),
        }
    }
}

/// The commands of the player that have a variant of their own. The seconds
/// of a seek are given as the text that is to be sent for them.
#[derive(Debug, Clone)]
pub enum MpvCommand {
    LoadFile { file: String, option: PlaylistAddOptions },
    LoadList { file: String, option: PlaylistAddOptions },
    PlaylistClear,
    PlaylistMove { from: usize, to: usize },
    Observe { id: usize, property: String },
    PlaylistNext,
    PlaylistPrev,
    PlaylistRemove(usize),
    PlaylistShuffle,
    Quit,
    ScriptMessage(Vec<String>),
    ScriptMessageTo { target: String, args: Vec<String> },
    Seek { seconds: String, option: SeekOptions },
    Stop,
    Unobserve(usize),
}

/// The texts that a list of strings holds, in order.
pub open spec fn texts(s: Seq<String>) -> Seq<Seq<char>> {
    Seq::new(s.len(), |i: int| s[i]@)
}

/// The words of the raw command that a command is sent as: the verb, then
/// its arguments. Numbers are written in decimal.
pub open spec fn raw_words(command: MpvCommand) -> Seq<Seq<char>> {
    match command {
        MpvCommand::LoadFile { file, option } => seq!["loadfile"@, file@, option.raw()],
        MpvCommand::LoadList { file, option } => seq!["loadlist"@, file@, option.raw()],
        MpvCommand::PlaylistClear => seq!["playlist-clear"@],
        MpvCommand::PlaylistMove { from, to } => seq![
            "playlist-move"@,
            decimal(from as nat),
            decimal(to as nat),
        ],
        MpvCommand::PlaylistNext => seq!["playlist-next"@],
        MpvCommand::PlaylistPrev => seq!["playlist-prev"@],
        MpvCommand::PlaylistRemove(id) => seq!["playlist-remove"@, decimal(id as nat)],
        MpvCommand::PlaylistShuffle => seq!["playlist-shuffle"@],
        MpvCommand::Quit => seq!["quit"@],
        MpvCommand::ScriptMessage(args) => seq!["script-message"@] + texts(args@),
        MpvCommand::ScriptMessageTo { target, args } => seq!["script-message-to"@, target@]
            + texts(args@),
        MpvCommand::Seek { seconds, option } => seq!["seek"@, seconds@, option.raw()],
        MpvCommand::Stop => seq!["stop"@],
        MpvCommand::Observe { .. } => Seq::empty(),
        MpvCommand::Unobserve(_) => Seq::empty(),
    }
}

/// Whether a request is the one that a command is sent as: subscriptions
/// have requests of their own, every other command is a raw command.
pub open spec fn is_request_of(command: MpvCommand, r: MpvIpcCommand) -> bool {
    match command {
        MpvCommand::Observe { id, property } => r == MpvIpcCommand::ObserveProperty(
            id as u64,
            property,
        ),
        MpvCommand::Unobserve(id) => r == MpvIpcCommand::UnobserveProperty(id as u64),
        _ => r matches MpvIpcCommand::Command(words) && texts(words@) == raw_words(command),
    }
}

/// A `usize` as a `u64`.
fn usize_to_u64(n: usize) -> (r: u64)
    ensures
        r == n as u64,
        r as usize == n,
{
    n as u64
}

/// Appends copies of the strings of a list to another.
fn append_copies(words: &mut Vec<String>, more: &Vec<String>)
    ensures
        texts(final(words)@) == texts(old(words)@) + texts(more@),
{
    let ghost before = texts(words@);
    let mut i: usize = 0;
    while i < more.len()
        invariant
            i <= more@.len(),
            texts(words@) == before + texts(more@).subrange(0, i as int),
        decreases more.len() - i,
    {
        let ghost prev = texts(words@);
        words.push(more[i].clone());
        proof {
            assert(texts(words@) =~= prev.push(more@[i as int]@));
            assert(texts(words@) =~= before + texts(more@).subrange(0, i + 1));
        }
        i += 1;
    }
    proof {
        assert(texts(more@).subrange(0, more@.len() as int) =~= texts(more@));
    }
}

/// The request that a command is sent to the connection actor as.
pub fn command_request(command: MpvCommand) -> (r: MpvIpcCommand)
    ensures
        is_request_of(command, r),
{
    let mut words: Vec<String> = Vec::new();
    match command {
        MpvCommand::LoadFile { file, option } => {
            words.push("loadfile".to_owned());
            words.push(file);
            words.push(option.into_raw_command_part());
        },
        MpvCommand::LoadList { file, option } => {
            words.push("loadlist".to_owned());
            words.push(file);
            words.push(option.into_raw_command_part());
        },
        MpvCommand::Observe { id, property } => {
            return MpvIpcCommand::ObserveProperty(usize_to_u64(id), property);
        },
        MpvCommand::PlaylistClear => {
            words.push("playlist-clear".to_owned());
        },
        MpvCommand::PlaylistMove { from, to } => {
            words.push("playlist-move".to_owned());
            words.push(usize_to_text(from));
            words.push(usize_to_text(to));
        },
        MpvCommand::PlaylistNext => {
            words.push("playlist-next".to_owned());
        },
        MpvCommand::PlaylistPrev => {
            words.push("playlist-prev".to_owned());
        },
        MpvCommand::PlaylistRemove(id) => {
            words.push("playlist-remove".to_owned());
            words.push(usize_to_text(id));
        },
        MpvCommand::PlaylistShuffle => {
            words.push("playlist-shuffle".to_owned());
        },
        MpvCommand::Quit => {
            words.push("quit".to_owned());
        },
        MpvCommand::ScriptMessage(args) => {
            words.push("script-message".to_owned());
            assert(texts(words@) =~= seq!["script-message"@]);
            append_copies(&mut words, &args);
        },
        MpvCommand::ScriptMessageTo { target, args } => {
            words.push("script-message-to".to_owned());
            words.push(target);
            assert(texts(words@) =~= seq!["script-message-to"@, target@]);
            append_copies(&mut words, &args);
        },
        MpvCommand::Seek { seconds, option } => {
            words.push("seek".to_owned());
            words.push(seconds);
            words.push(option.into_raw_command_part());
        },
        MpvCommand::Stop => {
            words.push("stop".to_owned());
        },
        MpvCommand::Unobserve(id) => {
            return MpvIpcCommand::UnobserveProperty(usize_to_u64(id));
        },
    }
    proof {
        assert(texts(words@) =~= raw_words(command));
    }
    MpvIpcCommand::Command(words)
}

/// The request for a raw command: the verb, then the arguments, in order.
pub fn raw_command_request(command: &str, args: &[&str]) -> (r: MpvIpcCommand)
    ensures
        r matches MpvIpcCommand::Command(words) && words@.len() == args@.len() + 1 && words@[0]@
            == command@ && forall|i: int|
            0 <= i < args@.len() ==> (#[trigger] words@[i + 1])@ == args@[i]@,
{
    let mut words: Vec<String> = Vec::new();
    words.push(command.to_owned());
    let mut i: usize = 0;
    while i < args.len()
        invariant
            i <= args@.len(),
            words@.len() == i + 1,
            words@[0]@ == command@,
            forall|k: int| 0 <= k < i ==> (#[trigger] words@[k + 1])@ == args@[k]@,
        decreases args.len() - i,
    {
        words.push(args[i].to_owned());
        i += 1;
    }
    MpvIpcCommand::Command(words)
}

/// The outcome of a command whose value is of no interest.
pub fn discard_value(response: Result<Option<Value>, MpvError>) -> (r: Result<(), MpvError>)
    ensures
        match response {
            Ok(_) => r is Ok,
            Err(e) => r == Err::<(), MpvError>(e),
        },
{
    match response {
        Ok(_) => Ok(()),
        Err(e) => Err(e),
    }
}

} // verus!
