//! Plain-value data shared by the registry and the dispatcher.

use vstd::prelude::*;

verus! {

/// One argument field as an input schema declares it.
#[derive(Debug)]
pub struct PropertySchema {
    pub name: String,
    /// The JSON type of the field, such as `string`.
    pub json_type: String,
    pub description: String,
}

/// The accepted shape of a tool's arguments: its fields and which of them are required.
#[derive(Debug)]
pub struct InputSchema {
    pub properties: Vec<PropertySchema>,
    pub required: Vec<String>,
}

/// What a client learns of one tool when it lists them.
#[derive(Debug)]
pub struct ToolDescriptor {
    pub name: String,
    pub description: String,
    pub input_schema: InputSchema,
}

/// A typed unit of result data handed back to the caller.
#[derive(Debug)]
pub enum ContentBlock {
    Text(String),
}

impl ContentBlock {
    pub open spec fn text_view(&self) -> Seq<char> {
        match self {
            ContentBlock::Text(t) => t@,
        }
    }
}

/// A successful invocation: its content blocks, in order.
#[derive(Debug)]
pub struct CallToolResult {
    pub content: Vec<ContentBlock>,
}

impl CallToolResult {
    /// The text of each content block, in order.
    pub open spec fn texts(&self) -> Seq<Seq<char>> {
        self.content@.map_values(|b: ContentBlock| b.text_view())
    }

    /// A result made of one text block.
    pub fn text_content(text: String) -> (r: Self)
        ensures
            r.texts() == seq![text@],
    {
        let r = CallToolResult { content: vec![ContentBlock::Text(text)] };
        assert(r.texts() =~= seq![text@]);
        r
    }
}

/// The class of a failed invocation.
#[derive(Debug, Clone, Copy, PartialEq, Eq, Structural)]
pub enum FailureKind {
    /// No tool carries the requested name.
    UnknownTool,
    /// The arguments do not fit the tool's parameter shape.
    InvalidArguments,
    /// The tool failed while it ran.
    ExecutionError,
}

/// A failed invocation: its class and a message for the caller.
#[derive(Debug)]
pub struct CallToolError {
    pub kind: FailureKind,
    pub message: String,
}

/// One value of an untyped argument payload. Numbers carry no value: the
/// parameter shapes here only ever ask for a value's kind.
#[derive(Debug)]
pub enum ArgValue {
    Null,
    Bool(bool),
    Number,
    Str(String),
    Array,
    Object,
}

/// The first value stored under `key`.
pub open spec fn lookup_arg(fields: Seq<(String, ArgValue)>, key: Seq<char>) -> Option<ArgValue>
    decreases fields.len(),
{
    if fields.len() == 0 {
        None
    } else if fields[0].0@ == key {
        Some(fields[0].1)
    } else {
        lookup_arg(fields.drop_first(), key)
    }
}

/// An untyped argument payload: field names and their values.
#[derive(Debug)]
pub struct Arguments {
    pub fields: Vec<(String, ArgValue)>,
}

impl Arguments {
    pub open spec fn get_spec(&self, key: Seq<char>) -> Option<ArgValue> {
        lookup_arg(self.fields@, key)
    }

    /// An empty payload.
    pub fn new() -> (r: Self)
        ensures
            r.fields@.len() == 0,
            forall|k: Seq<char>| r.get_spec(k) is None,
    {
        Arguments { fields: Vec::new() }
    }

    /// Stores `value` under `key`, in place of any earlier value there.
    pub fn insert(&mut self, key: String, value: ArgValue)
        ensures
            final(self).get_spec(key@) == Some(value),
            forall|k: Seq<char>| k != key@ ==> final(self).get_spec(k) == old(self).get_spec(k),
    {
        self.fields.insert(0, (key, value));
        assert(self.fields@.drop_first() =~= old(self).fields@);
    }

    /// The value stored under `key`, if any.
    pub fn get(&self, key: &str) -> (r: Option<&ArgValue>)
        ensures
            match r {
                Some(v) => self.get_spec(key@) == Some(*v),
                None => self.get_spec(key@) is None,
            },
    {
        let wanted = key.to_owned();
        let mut i: usize = 0;
        assert(self.fields@.subrange(0, self.fields@.len() as int) =~= self.fields@);
        while i < self.fields.len()
            invariant
                i <= self.fields@.len(),
                wanted@ == key@,
                lookup_arg(self.fields@, key@) == lookup_arg(self.fields@.subrange(i as int, self.fields@.len() as int), key@),
            decreases self.fields@.len() - i,
        {
            let ghost rest = self.fields@.subrange(i as int, self.fields@.len() as int);
            assert(rest.len() > 0 && rest[0] == self.fields@[i as int]);
            let is_key = self.fields[i].0 == wanted;
            if is_key {
                return Some(&self.fields[i].1);
            }
            assert(rest.drop_first() =~= self.fields@.subrange(i + 1, self.fields@.len() as int));
            i = i + 1;
        }
        None
    }
}

/// One inbound invocation: the tool's name and its argument payload.
#[derive(Debug)]
pub struct CallToolRequest {
    pub tool_name: String,
    pub arguments: Arguments,
}

} // verus!
