use vstd::prelude::*;

verus! {

/// One audio cue: the name shown for it and its playback volume.
///
/// The volume is held as the bit pattern of a single-precision float, so that
/// the library carries it without doing floating-point work on it.
#[derive(Clone, Debug)]
pub struct Message {
    pub display_name: String,
    pub volume_bits: u32,
}

/// The abstract value of a `Message`.
pub struct MessageView {
    pub display_name: Seq<char>,
    pub volume_bits: u32,
}

impl View for Message {
    type V = MessageView;

    open spec fn view(&self) -> MessageView {
        MessageView { display_name: self.display_name@, volume_bits: self.volume_bits }
    }
}

impl Message {
    pub fn new(display_name: String, volume_bits: u32) -> (r: Message)
        ensures
            r.display_name == display_name,
            r.volume_bits == volume_bits,
    {
        Message { display_name, volume_bits }
    }

    /// A fresh copy of this message, equal to it in every field.
    pub fn snapshot(&self) -> (r: Message)
        ensures
            r@ == self@,
    {
        Message { display_name: self.display_name.clone(), volume_bits: self.volume_bits }
    }
}

/// The entries of a message list, as key and message views, in list order.
pub open spec fn entries_of(s: Seq<(String, Message)>) -> Seq<(Seq<char>, MessageView)> {
    s.map_values(|e: (String, Message)| (e.0@, e.1@))
}

/// No two entries share a key.
pub open spec fn unique_keys(es: Seq<(Seq<char>, MessageView)>) -> bool {
    forall|i: int, j: int|
        0 <= i < es.len() && 0 <= j < es.len() && i != j ==> #[trigger] es[i].0 != #[trigger] es[j].0
}

/// The mapping from audio file name to message that a list of entries denotes.
pub open spec fn map_of(es: Seq<(Seq<char>, MessageView)>) -> Map<Seq<char>, MessageView>
    decreases es.len(),
{
    if es.len() == 0 {
        Map::empty()
    } else {
        map_of(es.drop_last()).insert(es.last().0, es.last().1)
    }
}

/// A key is in the mapping exactly when some entry carries it.
pub proof fn lemma_map_of_domain(es: Seq<(Seq<char>, MessageView)>, k: Seq<char>)
    ensures
        map_of(es).contains_key(k) <==> exists|i: int| 0 <= i < es.len() && (#[trigger] es[i]).0 == k,
    decreases es.len(),
{
    if es.len() > 0 {
        let init = es.drop_last();
        lemma_map_of_domain(init, k);
        if map_of(es).contains_key(k) {
            if k != es.last().0 {
                let i = choose|i: int| 0 <= i < init.len() && (#[trigger] init[i]).0 == k;
                assert(es[i] == init[i]);
            } else {
                assert(es[es.len() - 1] == es.last());
            }
        }
        if exists|i: int| 0 <= i < es.len() && (#[trigger] es[i]).0 == k {
            let i = choose|i: int| 0 <= i < es.len() && (#[trigger] es[i]).0 == k;
            if i < es.len() - 1 {
                assert(init[i] == es[i]);
            }
        }
    }
}

/// With distinct keys, each entry's key maps to that entry's message.
pub proof fn lemma_map_of_value(es: Seq<(Seq<char>, MessageView)>, i: int)
    requires
        unique_keys(es),
        0 <= i < es.len(),
    ensures
        map_of(es).contains_key(es[i].0),
        map_of(es)[es[i].0] == es[i].1,
    decreases es.len(),
{
    let init = es.drop_last();
    if i < es.len() - 1 {
        assert(init[i] == es[i]);
        assert forall|a: int, b: int|
            0 <= a < init.len() && 0 <= b < init.len() && a != b implies #[trigger] init[a].0
            != #[trigger] init[b].0 by {
            assert(init[a] == es[a]);
            assert(init[b] == es[b]);
        }
        lemma_map_of_value(init, i);
        assert(es[i].0 != es[es.len() - 1].0);
    }
}

/// The configuration snapshot: where the audio assets live, and the message
/// for each audio file name.
///
/// `messages` holds one entry per audio file name; `wf` states that no two
/// entries share a name.
#[derive(Clone, Debug)]
pub struct Config {
    pub audio_folder_path: String,
    pub messages: Vec<(String, Message)>,
}

/// The abstract value of a `Config`: entry order carries no meaning.
pub struct ConfigView {
    pub audio_folder_path: Seq<char>,
    pub messages: Map<Seq<char>, MessageView>,
}

impl View for Config {
    type V = ConfigView;

    open spec fn view(&self) -> ConfigView {
        ConfigView {
            audio_folder_path: self.audio_folder_path@,
            messages: map_of(entries_of(self.messages@)),
        }
    }
}

impl Config {
    pub open spec fn wf(&self) -> bool {
        unique_keys(entries_of(self.messages@))
    }

    /// Builds a configuration, or `None` when two entries name the same audio file.
    pub fn new(audio_folder_path: String, messages: Vec<(String, Message)>) -> (r: Option<Config>)
        ensures
            r.is_some() <==> unique_keys(entries_of(messages@)),
            r matches Some(c) ==> c.audio_folder_path == audio_folder_path && c.messages
                == messages && c.wf(),
    {
        let n = messages.len();
        let mut i: usize = 0;
        while i < n
            invariant
                n == messages@.len(),
                i <= n,
                forall|a: int, b: int|
                    0 <= a < i && 0 <= b < n && a != b ==> #[trigger] entries_of(messages@)[a].0
                        != #[trigger] entries_of(messages@)[b].0,
            decreases n - i,
        {
            let mut j: usize = 0;
            while j < n
                invariant
                    n == messages@.len(),
                    i < n,
                    j <= n,
                    forall|a: int, b: int|
                        0 <= a < i && 0 <= b < n && a != b ==> #[trigger] entries_of(messages@)[a].0
                            != #[trigger] entries_of(messages@)[b].0,
                    forall|b: int|
                        0 <= b < j && b != i ==> entries_of(messages@)[i as int].0
                            != #[trigger] entries_of(messages@)[b].0,
                decreases n - j,
            {
                if j != i && messages[i].0 == messages[j].0 {
                    assert(entries_of(messages@)[i as int].0 == entries_of(messages@)[j as int].0);
                    return None;
                }
                j += 1;
            }
            i += 1;
        }
        Some(Config { audio_folder_path, messages })
    }

    /// The message for an audio file name, if the configuration has one.
    pub fn message(&self, name: &String) -> (r: Option<&Message>)
        requires
            self.wf(),
        ensures
            r.is_some() <==> self@.messages.contains_key(name@),
            r matches Some(m) ==> m@ == self@.messages[name@],
    {
        let ghost es = entries_of(self.messages@);
        proof {
            lemma_map_of_domain(es, name@);
        }
        let mut i: usize = 0;
        while i < self.messages.len()
            invariant
                es == entries_of(self.messages@),
                unique_keys(es),
                i <= self.messages@.len(),
                forall|a: int| 0 <= a < i ==> (#[trigger] es[a]).0 != name@,
            decreases self.messages@.len() - i,
        {
            if self.messages[i].0 == *name {
                proof {
                    lemma_map_of_value(es, i as int);
                }
                return Some(&self.messages[i].1);
            }
            i += 1;
        }
        None
    }

    /// A fresh copy of this configuration, equal to it entry for entry.
    pub fn snapshot(&self) -> (r: Config)
        ensures
            r.audio_folder_path@ == self.audio_folder_path@,
            entries_of(r.messages@) == entries_of(self.messages@),
            r@ == self@,
            self.wf() ==> r.wf(),
    {
        let mut messages: Vec<(String, Message)> = Vec::new();
        let mut i: usize = 0;
        while i < self.messages.len()
            invariant
                i <= self.messages@.len(),
                messages@.len() == i,
                forall|a: int| 0 <= a < i ==> #[trigger] entries_of(messages@)[a]
                    == entries_of(self.messages@)[a],
            decreases self.messages@.len() - i,
        {
            let entry = (self.messages[i].0.clone(), self.messages[i].1.snapshot());
            let ghost before = messages@;
            messages.push(entry);
            assert forall|a: int| 0 <= a <= i implies #[trigger] entries_of(messages@)[a]
                == entries_of(self.messages@)[a] by {
                assert(entries_of(messages@)[a] == (messages@[a].0@, messages@[a].1@));
                assert(entries_of(self.messages@)[a] == (
                self.messages@[a].0@,
                self.messages@[a].1@,
                ));
                if a < i {
                    assert(messages@[a] == before[a]);
                    assert(entries_of(before)[a] == (before[a].0@, before[a].1@));
                }
            }
            i += 1;
        }
        assert(entries_of(messages@) =~= entries_of(self.messages@));
        Config { audio_folder_path: self.audio_folder_path.clone(), messages }
    }
}

} // verus!
