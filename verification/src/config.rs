//! What the service is set up to do.

use vstd::hash_map::StringHashMap;
use vstd::prelude::*;

use crate::builder::{StructuralTagBuilder, StructuralTagSchemaMode};

verus! {

/// Whether structural tags are used.
#[derive(Debug, Clone, Copy, PartialEq, Eq, Structural)]
pub enum StructuralTagMode {
    /// Never.
    Off,
    /// Where a request calls for them.
    On,
}

/// Which requests with `tool_choice="auto"` get a tool-call tag.
#[derive(Debug, Clone, Copy, PartialEq, Eq, Structural)]
pub enum StructuralTagScope {
    /// Those with a strict tool, and those that ask for a single call.
    Auto,
    /// All of them.
    Always,
}

/// The settings of a model.
#[derive(Debug, Clone, Copy)]
pub struct ModelRuntimeConfig {
    /// Whether structural tags are used.
    pub structural_tag_mode: StructuralTagMode,
    /// Which requests get a tool-call tag without forcing a call.
    pub structural_tag_scope: StructuralTagScope,
    /// How strict the schemas of the arguments are.
    pub structural_tag_schema: StructuralTagSchemaMode,
}

/// What a tool-call parser brings along.
#[derive(Debug)]
pub struct ToolCallConfig {
    /// Builds the tags of the parser's model family, where it has any.
    pub structural_tag_builder: Option<StructuralTagBuilder>,
}

/// The known tool-call parsers, by name.
pub struct ToolParserMap {
    parsers: StringHashMap<ToolCallConfig>,
}

impl View for ToolParserMap {
    type V = Map<Seq<char>, ToolCallConfig>;

    closed spec fn view(&self) -> Map<Seq<char>, ToolCallConfig> {
        self.parsers@
    }
}

impl ToolParserMap {
    /// No parsers.
    pub fn new() -> (map: Self)
        ensures
            map@ == Map::<Seq<char>, ToolCallConfig>::empty(),
    {
        ToolParserMap { parsers: StringHashMap::new() }
    }

    /// Makes a parser known, in place of any other of that name.
    pub fn insert(&mut self, name: String, config: ToolCallConfig)
        ensures
            final(self)@ == old(self)@.insert(name@, config),
    {
        self.parsers.insert(name, config);
    }

    /// The parser of this name.
    pub fn get(&self, name: &str) -> (config: Option<&ToolCallConfig>)
        ensures
            config is Some <==> self@.contains_key(name@),
            config matches Some(found) ==> *found == self@[name@],
    {
        self.parsers.get(name)
    }
}

} // verus!
