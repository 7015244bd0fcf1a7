//! Source formatting: the intermediate `SourceItem` form and its rendering to text.

pub mod annotation;
pub mod expression;
pub mod settings;

pub use settings::{IndentationMode, OperatorSpacing, SourceFormatSettings};

use vstd::prelude::*;
use vstd::string::StringExecFns;

verus! {

/// How a member of a block is laid out.
#[derive(Debug, Clone, Copy, PartialEq, Eq, Structural)]
pub struct FormatDescription {
    /// The member is rendered one level deeper than its block.
    pub indented: bool,
    /// The member is followed, and its successor preceded, by a line break.
    pub separated: bool,
}

/// A member of a block: an item and its layout.
#[derive(Debug)]
pub struct SourceObject {
    pub(crate) item: SourceItem,
    pub(crate) description: FormatDescription,
}

impl SourceObject {
    /// The item.
    pub open(crate) spec fn spec_item(&self) -> SourceItem {
        self.item
    }

    /// The layout.
    pub open(crate) spec fn spec_description(&self) -> FormatDescription {
        self.description
    }

    /// Constructs a member from an item and its layout.
    pub fn new(item: SourceItem, description: FormatDescription) -> (r: Self)
        ensures
            r.spec_item() == item,
            r.spec_description() == description,
    {
        SourceObject { item, description }
    }
}

/// Formatter output before it is rendered: atomic text, or a block of members.
#[derive(Debug)]
pub enum SourceItem {
    Text(String),
    Block(Vec<SourceObject>),
}

/// `count` copies of `unit`, one after the other.
pub open spec fn repeated(unit: Seq<char>, count: nat) -> Seq<char>
    decreases count,
{
    if count == 0 {
        Seq::empty()
    } else {
        repeated(unit, (count - 1) as nat) + unit
    }
}

/// One level of indentation: nothing, or the given number of spaces or tabs.
pub open spec fn indentation_unit(mode: IndentationMode) -> Seq<char> {
    match mode {
        IndentationMode::Disabled => Seq::empty(),
        IndentationMode::Spaces(n) => Seq::new(n as nat, |_i: int| ' '),
        IndentationMode::Tabs(n) => Seq::new(n as nat, |_i: int| '\t'),
    }
}

/// The prefix written before an item at nesting level `indent`.
pub open spec fn indentation_text(mode: IndentationMode, indent: nat) -> Seq<char> {
    match mode {
        IndentationMode::Disabled => Seq::empty(),
        _ => repeated(indentation_unit(mode), indent),
    }
}

/// The nesting level at which a member of a block at level `indent` is rendered.
pub open spec fn member_indent(description: FormatDescription, indent: nat) -> nat {
    if description.indented {
        indent + 1
    } else {
        indent
    }
}

/// How deeply blocks nest inside an item.
pub open(crate) spec fn item_depth(item: SourceItem) -> nat
    decreases item,
{
    match item {
        SourceItem::Text(_) => 0,
        SourceItem::Block(objects) => 1 + objects_depth(objects@),
    }
}

/// The greatest depth among the items of the members.
pub open(crate) spec fn objects_depth(objects: Seq<SourceObject>) -> nat
    decreases objects,
{
    if objects.len() == 0 {
        0
    } else {
        let rest = objects_depth(objects.drop_last());
        let last = item_depth(objects.last().item);
        if rest >= last {
            rest
        } else {
            last
        }
    }
}

/// No member's item is deeper than the members taken together.
proof fn lemma_objects_depth_bound(objects: Seq<SourceObject>, i: int)
    requires
        0 <= i < objects.len(),
    ensures
        item_depth(objects[i].item) <= objects_depth(objects),
    decreases objects.len(),
{
    if i < objects.len() - 1 {
        lemma_objects_depth_bound(objects.drop_last(), i);
    }
}

/// The text of an item rendered at nesting level `indent`.
pub open(crate) spec fn item_text(item: SourceItem, settings: SourceFormatSettings, indent: nat) -> Seq<
    char,
>
    decreases item,
{
    indentation_text(settings.indentation, indent) + match item {
        SourceItem::Text(text) => text@,
        SourceItem::Block(objects) => block_text(objects@, settings, indent),
    }
}

/// The text of the members of a block at level `indent`: each member in turn, followed by a
/// line break when it or the member before it is separated.
pub open(crate) spec fn block_text(
    objects: Seq<SourceObject>,
    settings: SourceFormatSettings,
    indent: nat,
) -> Seq<char>
    decreases objects,
{
    if objects.len() == 0 {
        Seq::empty()
    } else {
        let last = objects.last();
        let previous_separated = objects.len() >= 2 && objects[objects.len() - 2].description.separated;
        let line_break = if previous_separated || last.description.separated {
            seq!['\n']
        } else {
            Seq::empty()
        };
        block_text(objects.drop_last(), settings, indent) + item_text(
            last.item,
            settings,
            member_indent(last.description, indent),
        ) + line_break
    }
}

impl SourceItem {
    /// Constructs atomic text.
    pub fn text(value: &str) -> (r: Self)
        ensures
            r matches SourceItem::Text(t) && t@ == value@,
    {
        SourceItem::Text(value.to_string())
    }

    /// Constructs a block from its members.
    pub fn block(objects: Vec<SourceObject>) -> (r: Self)
        ensures
            r matches SourceItem::Block(o) && o == objects,
    {
        SourceItem::Block(objects)
    }

    /// Returns the prefix for nesting level `indent`.
    fn indentation(settings: &SourceFormatSettings, indent: usize) -> (r: String)
        ensures
            r@ == indentation_text(settings.indentation, indent as nat),
    {
        let (count, unit_text): (usize, &str) = match settings.indentation {
            IndentationMode::Disabled => {
                return String::new();
            },
            IndentationMode::Spaces(n) => (n, " "),
            IndentationMode::Tabs(n) => (n, "\t"),
        };
        proof {
            reveal_strlit(" ");
            reveal_strlit("\t");
        }
        let ghost c = unit_text@[0];
        let mut unit = String::new();
        let mut k: usize = 0;
        while k < count
            invariant
                k <= count,
                unit_text@ == seq![c],
                unit@ == Seq::new(k as nat, |_i: int| c),
            decreases count - k,
        {
            unit.append(unit_text);
            k = k + 1;
            assert(unit@ =~= Seq::new(k as nat, |_i: int| c));
        }
        let mut result = String::new();
        let mut level: usize = 0;
        while level < indent
            invariant
                level <= indent,
                result@ == repeated(unit@, level as nat),
            decreases indent - level,
        {
            result.append(unit.as_str());
            level = level + 1;
        }
        assert(unit@ =~= indentation_unit(settings.indentation));
        result
    }

    /// Renders the item at nesting level `indent`: its indentation prefix, then its text or,
    /// for a block, each member in turn with the line breaks that their layout asks for.
    pub fn format(&self, settings: &SourceFormatSettings, indent: usize) -> (r: String)
        requires
            indent + item_depth(*self) <= usize::MAX,
        ensures
            r@ == item_text(*self, *settings, indent as nat),
        decreases self,
    {
        let indentation = Self::indentation(settings, indent);
        let mut buffer = indentation;
        match self {
            SourceItem::Text(text) => {
                buffer.append(text.as_str());
            },
            SourceItem::Block(objects) => {
                let ghost start = buffer@;
                let mut last_separated = false;
                let mut i: usize = 0;
                while i < objects.len()
                    invariant
                        i <= objects.len(),
                        *self == SourceItem::Block(*objects),
                        indent + item_depth(*self) <= usize::MAX,
                        buffer@ == start + block_text(objects@.take(i as int), *settings, indent as nat),
                        last_separated == (i > 0 && objects@[i - 1].description.separated),
                    decreases objects.len() - i,
                {
                    let object = &objects[i];
                    proof {
                        lemma_objects_depth_bound(objects@, i as int);
                        assert(decreases_to!(*self => *objects));
                        assert(decreases_to!(*objects => objects[i as int]));
                        assert(objects@.take(i + 1).drop_last() =~= objects@.take(i as int));
                    }
                    let this_separated = object.description.separated;
                    let child_indent = if object.description.indented {
                        indent + 1
                    } else {
                        indent
                    };
                    let rendered = object.item.format(settings, child_indent);
                    let ghost before = buffer@;
                    buffer.append(rendered.as_str());
                    if last_separated || this_separated {
                        proof {
                            reveal_strlit("\n");
                        }
                        buffer.append("\n");
                    }
                    proof {
                        let prefix = objects@.take(i + 1);
                        assert(prefix.last() == objects@[i as int]);
                        assert(i > 0 ==> prefix[prefix.len() - 2] == objects@[i - 1]);
                        assert(buffer@ =~= start + block_text(prefix, *settings, indent as nat));
                    }
                    last_separated = this_separated;
                    i = i + 1;
                }
                assert(objects@.take(i as int) =~= objects@);
            },
        }
        buffer
    }
}

/// Formatting of syntax tree nodes.
pub trait SourceFormat {
    /// The source text of the node.
    spec fn spec_format(&self, settings: SourceFormatSettings) -> Seq<char>;

    /// Returns the node as atomic text.
    fn format(&self, settings: &SourceFormatSettings) -> (r: SourceItem)
        ensures
            r matches SourceItem::Text(t) && t@ == self.spec_format(*settings),
    ;

    /// Returns the source text of the node.
    fn format_string(&self, settings: &SourceFormatSettings) -> (r: String)
        ensures
            r@ == self.spec_format(*settings),
    {
        let item = self.format(settings);
        proof {
            assert(item_depth(item) == 0);
            assert(indentation_text(settings.indentation, 0) =~= Seq::empty());
        }
        let r = item.format(settings, 0);
        proof {
            assert(r@ =~= self.spec_format(*settings));
        }
        r
    }
}

} // verus!
