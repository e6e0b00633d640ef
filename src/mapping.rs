use vstd::prelude::*;
use crate::model::{ChannelType, Computer};
use crate::text::text_eq;

verus! {

/// The mapping of one node: which board channel a named device sits on.
///
/// Floating-point parameters are held by their IEEE-754 bit pattern
/// (`f64::to_bits`). An absent optional parameter is `None`, distinct from
/// zero, which is a legal threshold.
#[derive(Clone, Debug)]
pub struct NodeMapping {
    /// The text identifier, or name, of the node.
    pub text_id: String,
    /// The board that the node is wired to, its hostname without ".local".
    pub board_id: String,
    /// The channel type of the node.
    pub channel_type: ChannelType,
    /// The channel on the board that the node is wired to.
    pub channel: u32,
    /// Which computer controls the board.
    pub computer: Computer,
    /// The maximum reading of the sensor (current-loop and differential sensors).
    pub max: Option<u64>,
    /// The minimum reading of the sensor (current-loop and differential sensors).
    pub min: Option<u64>,
    /// The calibrated offset of the sensor, zero by default.
    pub calibrated_offset: u64,
    /// The current above which the valve is considered connected.
    pub connected_threshold: Option<u64>,
    /// The current above which the valve is considered powered.
    pub powered_threshold: Option<u64>,
    /// Whether the valve is normally closed.
    pub normally_closed: Option<bool>,
}

/// A node mapping as a mathematical value, its strings as character sequences.
pub struct NodeMappingView {
    pub text_id: Seq<char>,
    pub board_id: Seq<char>,
    pub channel_type: ChannelType,
    pub channel: u32,
    pub computer: Computer,
    pub max: Option<u64>,
    pub min: Option<u64>,
    pub calibrated_offset: u64,
    pub connected_threshold: Option<u64>,
    pub powered_threshold: Option<u64>,
    pub normally_closed: Option<bool>,
}

impl View for NodeMapping {
    type V = NodeMappingView;

    open spec fn view(&self) -> NodeMappingView {
        NodeMappingView {
            text_id: self.text_id@,
            board_id: self.board_id@,
            channel_type: self.channel_type,
            channel: self.channel,
            computer: self.computer,
            max: self.max,
            min: self.min,
            calibrated_offset: self.calibrated_offset,
            connected_threshold: self.connected_threshold,
            powered_threshold: self.powered_threshold,
            normally_closed: self.normally_closed,
        }
    }
}

/// Why a list of mappings was refused.
#[derive(Debug)]
pub enum ConfigError {
    /// Two mappings share this text identifier.
    DuplicateKey(String),
    /// This mapping claims a channel that an earlier mapping on the same board
    /// and computer already claims, with the same channel type.
    InvalidChannel(String),
}

/// Whether two mappings claim the same physical channel: same board, same
/// owning computer, same channel number and channel type.
pub open spec fn same_channel(a: NodeMappingView, b: NodeMappingView) -> bool {
    &&& a.board_id == b.board_id
    &&& a.computer == b.computer
    &&& a.channel == b.channel
    &&& a.channel_type == b.channel_type
}

/// No two mappings share a text identifier.
pub open spec fn keys_unique(ms: Seq<NodeMappingView>) -> bool {
    forall|i: int, j: int| 0 <= i < j < ms.len() ==> ms[i].text_id != ms[j].text_id
}

/// No two mappings claim the same channel.
pub open spec fn channels_distinct(ms: Seq<NodeMappingView>) -> bool {
    forall|i: int, j: int| 0 <= i < j < ms.len() ==> !same_channel(ms[i], ms[j])
}

/// A list of mappings that a table accepts.
pub open spec fn valid_mappings(ms: Seq<NodeMappingView>) -> bool {
    keys_unique(ms) && channels_distinct(ms)
}

/// Whether some mapping of the list is named `id`.
pub open spec fn has_key(ms: Seq<NodeMappingView>, id: Seq<char>) -> bool {
    exists|i: int| 0 <= i < ms.len() && ms[i].text_id == id
}

/// Finds a mapping whose text identifier an earlier mapping already has.
fn find_duplicate_key(ms: &Vec<NodeMapping>) -> (r: Option<usize>)
    ensures
        r.is_none() <==> keys_unique(ms@.map_values(|m: NodeMapping| m@)),
        r matches Some(j) ==> j < ms@.len() && exists|i: int|
            0 <= i < j && ms@[i].text_id@ == ms@[j as int].text_id@,
{
    let ghost vs = ms@.map_values(|m: NodeMapping| m@);
    let mut j: usize = 0;
    while j < ms.len()
        invariant
            j <= ms@.len(),
            vs == ms@.map_values(|m: NodeMapping| m@),
            forall|a: int, b: int| 0 <= a < b < j ==> vs[a].text_id != vs[b].text_id,
        decreases ms@.len() - j,
    {
        let mut i: usize = 0;
        while i < j
            invariant
                j < ms@.len(),
                i <= j,
                vs == ms@.map_values(|m: NodeMapping| m@),
                forall|a: int| 0 <= a < i ==> vs[a].text_id != vs[j as int].text_id,
            decreases j - i,
        {
            if text_eq(ms[i].text_id.as_str(), ms[j].text_id.as_str()) {
                assert(vs[i as int].text_id == vs[j as int].text_id);
                return Some(j);
            }
            i = i + 1;
        }
        j = j + 1;
    }
    None
}

/// Finds a mapping that claims the channel of an earlier mapping.
fn find_channel_conflict(ms: &Vec<NodeMapping>) -> (r: Option<usize>)
    ensures
        r.is_none() <==> channels_distinct(ms@.map_values(|m: NodeMapping| m@)),
        r matches Some(j) ==> j < ms@.len() && exists|i: int|
            0 <= i < j && same_channel(ms@[i]@, ms@[j as int]@),
{
    let ghost vs = ms@.map_values(|m: NodeMapping| m@);
    let mut j: usize = 0;
    while j < ms.len()
        invariant
            j <= ms@.len(),
            vs == ms@.map_values(|m: NodeMapping| m@),
            forall|a: int, b: int| 0 <= a < b < j ==> !same_channel(vs[a], vs[b]),
        decreases ms@.len() - j,
    {
        let mut i: usize = 0;
        while i < j
            invariant
                j < ms@.len(),
                i <= j,
                vs == ms@.map_values(|m: NodeMapping| m@),
                forall|a: int| 0 <= a < i ==> !same_channel(vs[a], vs[j as int]),
            decreases j - i,
        {
            let a = &ms[i];
            let b = &ms[j];
            if a.channel == b.channel && a.channel_type == b.channel_type
                && a.computer == b.computer
                && text_eq(a.board_id.as_str(), b.board_id.as_str()) {
                assert(same_channel(vs[i as int], vs[j as int]));
                return Some(j);
            }
            i = i + 1;
        }
        j = j + 1;
    }
    None
}

/// The table from node names to their mappings, replaced as a whole on each
/// successful load.
pub struct MappingTable {
    mappings: Vec<NodeMapping>,
}

impl View for MappingTable {
    type V = Seq<NodeMappingView>;

    closed spec fn view(&self) -> Seq<NodeMappingView> {
        self.mappings@.map_values(|m: NodeMapping| m@)
    }
}

impl MappingTable {
    /// The table's invariant: its mappings are a list that a load accepts.
    pub open spec fn well_formed(&self) -> bool {
        valid_mappings(self@)
    }

    /// Constructs an empty table.
    pub fn new() -> (r: MappingTable)
        ensures
            r@ == Seq::<NodeMappingView>::empty(),
            r.well_formed(),
    {
        let r = MappingTable { mappings: Vec::new() };
        assert(r@ =~= Seq::<NodeMappingView>::empty());
        r
    }

    /// The number of mappings in the table.
    pub fn len(&self) -> (r: usize)
        ensures
            r == self@.len(),
    {
        self.mappings.len()
    }

    /// The mapping at position `i`, in the order they were loaded.
    pub fn get(&self, i: usize) -> (r: &NodeMapping)
        requires
            i < self@.len(),
        ensures
            r@ == self@[i as int],
    {
        &self.mappings[i]
    }

    /// Validates `mappings` and, if they are valid, replaces the whole table
    /// with them. On an error the table is left as it was.
    pub fn load(&mut self, mappings: Vec<NodeMapping>) -> (r: Result<(), ConfigError>)
        ensures
            r.is_ok() <==> valid_mappings(mappings@.map_values(|m: NodeMapping| m@)),
            r.is_ok() ==> final(self)@ == mappings@.map_values(|m: NodeMapping| m@),
            r.is_err() ==> final(self)@ == old(self)@,
            final(self).well_formed() == (r.is_ok() || old(self).well_formed()),
            !keys_unique(mappings@.map_values(|m: NodeMapping| m@)) ==> r matches Err(
                ConfigError::DuplicateKey(_),
            ),
            r matches Err(ConfigError::DuplicateKey(id)) ==> {
                &&& !keys_unique(mappings@.map_values(|m: NodeMapping| m@))
                &&& exists|i: int, j: int|
                    0 <= i < j < mappings@.len() && mappings@[i].text_id@ == id@
                        && mappings@[j].text_id@ == id@
            },
            r matches Err(ConfigError::InvalidChannel(id)) ==> {
                &&& keys_unique(mappings@.map_values(|m: NodeMapping| m@))
                &&& exists|i: int, j: int|
                    0 <= i < j < mappings@.len() && same_channel(mappings@[i]@, mappings@[j]@)
                        && mappings@[j].text_id@ == id@
            },
    {
        match find_duplicate_key(&mappings) {
            Some(j) => {
                return Err(ConfigError::DuplicateKey(mappings[j].text_id.clone()));
            },
            None => {},
        }
        match find_channel_conflict(&mappings) {
            Some(j) => {
                return Err(ConfigError::InvalidChannel(mappings[j].text_id.clone()));
            },
            None => {},
        }
        self.mappings = mappings;
        Ok(())
    }

    /// Looks up the mapping named `text_id`.
    pub fn resolve(&self, text_id: &str) -> (r: Option<&NodeMapping>)
        ensures
            r.is_some() <==> has_key(self@, text_id@),
            r matches Some(m) ==> m@.text_id == text_id@ && self@.contains(m@),
    {
        let mut i: usize = 0;
        while i < self.mappings.len()
            invariant
                i <= self@.len(),
                self@ == self.mappings@.map_values(|m: NodeMapping| m@),
                forall|k: int| 0 <= k < i ==> self@[k].text_id != text_id@,
            decreases self@.len() - i,
        {
            if text_eq(self.mappings[i].text_id.as_str(), text_id) {
                assert(self@[i as int] == self.mappings@[i as int]@);
                return Some(&self.mappings[i]);
            }
            i = i + 1;
        }
        None
    }
}

/// A list with unique names and distinct channels is accepted by `load`, and
/// afterwards every one of its entries is found by `resolve` under its name,
/// and no other entry is found under that name.
pub proof fn lemma_valid_list_resolves(ms: Seq<NodeMappingView>, i: int)
    requires
        valid_mappings(ms),
        0 <= i < ms.len(),
    ensures
        has_key(ms, ms[i].text_id),
        forall|m: NodeMappingView| ms.contains(m) && m.text_id == ms[i].text_id ==> m == ms[i],
{
    assert forall|m: NodeMappingView| ms.contains(m) && m.text_id == ms[i].text_id implies m
        == ms[i] by {
        let k = choose|k: int| 0 <= k < ms.len() && ms[k] == m;
        if k < i {
            assert(ms[k].text_id != ms[i].text_id);
        } else if k > i {
            assert(ms[i].text_id != ms[k].text_id);
        }
    }
}

/// A list in which two entries share a name is refused by `load` with a
/// duplicate-key error, which leaves the table as it was.
pub proof fn lemma_duplicate_refused(ms: Seq<NodeMappingView>, i: int, j: int)
    requires
        0 <= i < j < ms.len(),
        ms[i].text_id == ms[j].text_id,
    ensures
        !keys_unique(ms),
        !valid_mappings(ms),
{
}

} // verus!
