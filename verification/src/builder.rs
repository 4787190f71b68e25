//! The output builder: it takes a name and the contributions in order, and
//! writes them out compact, on one line, or expanded, one contribution to a
//! line behind a margin.

use vstd::prelude::*;
use vstd::string::*;

use crate::text::{indent, indented};

verus! {

/// A contribution under a label: `label: value`.
pub open spec fn entry_text(label: Seq<char>, value: Seq<char>) -> Seq<char> {
    label + ": "@ + value
}

/// The text of a record after one more contribution. `first` says that
/// none was made before.
pub open spec fn record_step(
    before: Seq<char>,
    first: bool,
    label: Seq<char>,
    value: Seq<char>,
    expanded: bool,
) -> Seq<char> {
    if expanded {
        let opened = if first {
            before + " {\n"@
        } else {
            before
        };
        opened + indented(entry_text(label, value) + ",\n"@)
    } else {
        let separated = if first {
            before + " { "@
        } else {
            before + ", "@
        };
        separated + entry_text(label, value)
    }
}

/// The text of a record once it is closed. `any` says that a contribution
/// was made.
pub open spec fn record_close(before: Seq<char>, any: bool, expanded: bool) -> Seq<char> {
    if !any {
        before
    } else if expanded {
        before + "}"@
    } else {
        before + " }"@
    }
}

/// The text of a record under `name` after the first `upto` of the
/// contributions.
pub open spec fn record_progress(
    name: Seq<char>,
    entries: Seq<(Seq<char>, Seq<char>)>,
    upto: int,
    expanded: bool,
) -> Seq<char>
    decreases upto,
{
    if upto <= 0 {
        name
    } else {
        record_step(
            record_progress(name, entries, upto - 1, expanded),
            upto == 1,
            entries[upto - 1].0,
            entries[upto - 1].1,
            expanded,
        )
    }
}

/// The text of a record under `name` with these contributions, each a label
/// and a value.
pub open spec fn record_text(
    name: Seq<char>,
    entries: Seq<(Seq<char>, Seq<char>)>,
    expanded: bool,
) -> Seq<char> {
    record_close(
        record_progress(name, entries, entries.len() as int, expanded),
        entries.len() > 0,
        expanded,
    )
}

/// The text of a tuple after one more contribution. `first` says that none
/// was made before.
pub open spec fn tuple_step(before: Seq<char>, first: bool, value: Seq<char>, expanded: bool) -> Seq<
    char,
> {
    if expanded {
        let opened = if first {
            before + "(\n"@
        } else {
            before
        };
        opened + indented(value + ",\n"@)
    } else {
        let separated = if first {
            before + "("@
        } else {
            before + ", "@
        };
        separated + value
    }
}

/// The text of a tuple once it is closed, after `count` contributions. A
/// compact tuple without a name keeps a comma behind its only member.
pub open spec fn tuple_close(before: Seq<char>, count: nat, unnamed: bool, expanded: bool) -> Seq<
    char,
> {
    if count == 0 {
        before
    } else if count == 1 && unnamed && !expanded {
        before + ","@ + ")"@
    } else {
        before + ")"@
    }
}

/// The text of a tuple under `name` after the first `upto` of the
/// contributions.
pub open spec fn tuple_progress(
    name: Seq<char>,
    values: Seq<Seq<char>>,
    upto: int,
    expanded: bool,
) -> Seq<char>
    decreases upto,
{
    if upto <= 0 {
        name
    } else {
        tuple_step(
            tuple_progress(name, values, upto - 1, expanded),
            upto == 1,
            values[upto - 1],
            expanded,
        )
    }
}

/// The text of a tuple under `name` with these contributions.
pub open spec fn tuple_text(name: Seq<char>, values: Seq<Seq<char>>, expanded: bool) -> Seq<char> {
    tuple_close(
        tuple_progress(name, values, values.len() as int, expanded),
        values.len(),
        name.len() == 0,
        expanded,
    )
}

/// How many contributions a tuple has taken, as far as its text depends on
/// it.
#[derive(Debug, Clone, Copy, PartialEq, Eq, Structural)]
pub enum Fill {
    Empty,
    One,
    Several,
}

impl Fill {
    /// The fill after `count` contributions.
    pub open spec fn of(count: nat) -> Fill {
        if count == 0 {
            Fill::Empty
        } else if count == 1 {
            Fill::One
        } else {
            Fill::Several
        }
    }
}

/// A record being written.
pub struct RecordBuilder {
    pub text: String,
    pub expanded: bool,
    pub has_fields: bool,
}

impl RecordBuilder {
    /// Opens a record under `name`.
    pub fn begin_record(name: &str, expanded: bool) -> (builder: RecordBuilder)
        ensures
            builder.text@ == name@,
            builder.expanded == expanded,
            !builder.has_fields,
    {
        RecordBuilder { text: String::from_str(name), expanded, has_fields: false }
    }

    /// Takes the next contribution.
    pub fn field(&mut self, label: &str, value: &str)
        ensures
            final(self).text@ == record_step(
                old(self).text@,
                !old(self).has_fields,
                label@,
                value@,
                old(self).expanded,
            ),
            final(self).expanded == old(self).expanded,
            final(self).has_fields,
    {
        let mut entry = String::from_str(label);
        entry.append(": ");
        entry.append(value);
        if self.expanded {
            if !self.has_fields {
                self.text.append(" {\n");
            }
            entry.append(",\n");
            let lines = indent(entry.as_str());
            self.text.append(lines.as_str());
        } else {
            if self.has_fields {
                self.text.append(", ");
            } else {
                self.text.append(" { ");
            }
            self.text.append(entry.as_str());
        }
        self.has_fields = true;
    }

    /// Closes the record and hands out its text.
    pub fn finish(self) -> (out: String)
        ensures
            out@ == record_close(self.text@, self.has_fields, self.expanded),
    {
        let mut out = self.text;
        if self.has_fields {
            if self.expanded {
                out.append("}");
            } else {
                out.append(" }");
            }
        }
        out
    }
}

/// A tuple being written.
pub struct TupleBuilder {
    pub text: String,
    pub expanded: bool,
    pub fill: Fill,
    pub unnamed: bool,
}

impl TupleBuilder {
    /// Opens a tuple under `name`.
    pub fn begin_tuple(name: &str, expanded: bool) -> (builder: TupleBuilder)
        ensures
            builder.text@ == name@,
            builder.expanded == expanded,
            builder.fill == Fill::Empty,
            builder.unnamed == (name@.len() == 0),
    {
        TupleBuilder {
            text: String::from_str(name),
            expanded,
            fill: Fill::Empty,
            unnamed: name.unicode_len() == 0,
        }
    }

    /// Takes the next contribution.
    pub fn field(&mut self, value: &str)
        ensures
            final(self).text@ == tuple_step(
                old(self).text@,
                old(self).fill == Fill::Empty,
                value@,
                old(self).expanded,
            ),
            final(self).expanded == old(self).expanded,
            final(self).unnamed == old(self).unnamed,
            final(self).fill == (if old(self).fill == Fill::Empty {
                Fill::One
            } else {
                Fill::Several
            }),
    {
        let first = match self.fill {
            Fill::Empty => true,
            _ => false,
        };
        if self.expanded {
            if first {
                self.text.append("(\n");
            }
            let mut entry = String::from_str(value);
            entry.append(",\n");
            let lines = indent(entry.as_str());
            self.text.append(lines.as_str());
        } else {
            if first {
                self.text.append("(");
            } else {
                self.text.append(", ");
            }
            self.text.append(value);
        }
        self.fill = if first {
            Fill::One
        } else {
            Fill::Several
        };
    }

    /// Closes the tuple and hands out its text.
    pub fn finish(self) -> (out: String)
        ensures
            out@ == tuple_close(
                self.text@,
                match self.fill {
                    Fill::Empty => 0,
                    Fill::One => 1,
                    Fill::Several => 2,
                },
                self.unnamed,
                self.expanded,
            ),
    {
        let mut out = self.text;
        match self.fill {
            Fill::Empty => {},
            Fill::One => {
                if self.unnamed && !self.expanded {
                    out.append(",");
                }
                out.append(")");
            },
            Fill::Several => {
                out.append(")");
            },
        }
        out
    }
}

/// The text of a shape without fields: its bare name.
pub fn write_literal(name: &str) -> (out: String)
    ensures
        out@ == name@,
{
    String::from_str(name)
}

/// The text of a tuple under `name` with one member.
pub fn wrap(name: &str, value: &str, expanded: bool) -> (out: String)
    ensures
        out@ == tuple_text(name@, seq![value@], expanded),
{
    let mut builder = TupleBuilder::begin_tuple(name, expanded);
    builder.field(value);
    proof {
        reveal_with_fuel(tuple_progress, 2);
    }
    builder.finish()
}

} // verus!
