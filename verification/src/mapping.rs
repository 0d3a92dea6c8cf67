//! From database types to types of the target language.
//!
//! A [`TypeMapping`] is the table of one backend. It is filled once, before any
//! query is processed, and only read afterwards.

use vstd::prelude::*;
use crate::describe::TypeId;
use crate::diagnostic::{DiagnosticKind, DiagnosticKindView};

verus! {

/// What a target type is built on.
#[derive(Debug, PartialEq, Eq)]
pub enum BaseType {
    /// A type of the target language, by name.
    Named(String),
    /// The value as the database sent it, undecoded.
    RawBytes,
}

/// A base type as a plain value.
pub enum BaseTypeView {
    Named(Seq<char>),
    RawBytes,
}

impl View for BaseType {
    type V = BaseTypeView;

    open spec fn view(&self) -> BaseTypeView {
        match *self {
            BaseType::Named(name) => BaseTypeView::Named(name@),
            BaseType::RawBytes => BaseTypeView::RawBytes,
        }
    }
}

impl Clone for BaseType {
    fn clone(&self) -> (copy: BaseType)
        ensures
            copy@ == self@,
    {
        match self {
            BaseType::Named(name) => BaseType::Named(name.clone()),
            BaseType::RawBytes => BaseType::RawBytes,
        }
    }
}

/// A type of the target language: a base type, bare or inside the optional container.
#[derive(Debug, PartialEq, Eq)]
pub struct TargetType {
    pub base: BaseType,
    pub optional: bool,
}

/// A target type as a plain value.
pub struct TargetTypeView {
    pub base: BaseTypeView,
    pub optional: bool,
}

impl View for TargetType {
    type V = TargetTypeView;

    open spec fn view(&self) -> TargetTypeView {
        TargetTypeView { base: self.base@, optional: self.optional }
    }
}

impl Clone for TargetType {
    fn clone(&self) -> (copy: TargetType)
        ensures
            copy@ == self@,
    {
        TargetType { base: self.base.clone(), optional: self.optional }
    }
}

impl TargetType {
    /// The type named `name`, bare.
    pub fn named(name: &str) -> (ty: TargetType)
        ensures
            ty@ == (TargetTypeView { base: BaseTypeView::Named(name@), optional: false }),
    {
        TargetType { base: BaseType::Named(name.to_owned()), optional: false }
    }

    /// The type named `name` inside the optional container.
    pub fn optional(name: &str) -> (ty: TargetType)
        ensures
            ty@ == (TargetTypeView { base: BaseTypeView::Named(name@), optional: true }),
    {
        TargetType { base: BaseType::Named(name.to_owned()), optional: true }
    }
}

/// How a table entry treats a value that may be null.
#[derive(Clone, Copy, Debug, PartialEq, Eq, Structural)]
pub enum NullableRule {
    /// The target type goes inside the optional container.
    Wrap,
    /// The target type holds null by itself and stays bare.
    Bare,
}

/// What the table holds for one database type.
#[derive(Debug, PartialEq, Eq)]
pub struct TypeRule {
    pub target: String,
    pub nullable_rule: NullableRule,
}

/// A table entry's rule as a plain value.
pub struct TypeRuleView {
    pub target: Seq<char>,
    pub nullable_rule: NullableRule,
}

impl View for TypeRule {
    type V = TypeRuleView;

    open spec fn view(&self) -> TypeRuleView {
        TypeRuleView { target: self.target@, nullable_rule: self.nullable_rule }
    }
}

/// One registration: a database type and its rule.
#[derive(Debug, PartialEq, Eq)]
pub struct TypeEntry {
    pub type_id: TypeId,
    pub rule: TypeRule,
}

/// The table that a sequence of registrations amounts to: a later
/// registration of a type replaces an earlier one.
pub open spec fn table_of(entries: Seq<TypeEntry>) -> Map<Seq<char>, TypeRuleView>
    decreases entries.len(),
{
    if entries.len() == 0 {
        Map::empty()
    } else {
        table_of(entries.drop_last()).insert(entries.last().type_id@, entries.last().rule@)
    }
}

/// The type table of one backend.
#[derive(Debug, PartialEq, Eq)]
pub struct TypeMapping {
    entries: Vec<TypeEntry>,
}

impl View for TypeMapping {
    type V = Map<Seq<char>, TypeRuleView>;

    closed spec fn view(&self) -> Map<Seq<char>, TypeRuleView> {
        table_of(self.entries@)
    }
}

/// The outcome of mapping one database type.
#[derive(Debug, PartialEq, Eq)]
pub struct Mapped {
    pub target: TargetType,
    /// Set where the table had no entry and the raw representation stands in.
    pub warning: Option<DiagnosticKind>,
}

/// A mapping outcome as a plain value.
pub struct MappedView {
    pub target: TargetTypeView,
    pub warning: Option<DiagnosticKindView>,
}

/// The view of an optional diagnostic kind.
pub open spec fn kind_view(kind: Option<DiagnosticKind>) -> Option<DiagnosticKindView> {
    match kind {
        Some(k) => Some(k@),
        None => None,
    }
}

impl View for Mapped {
    type V = MappedView;

    open spec fn view(&self) -> MappedView {
        MappedView { target: self.target@, warning: kind_view(self.warning) }
    }
}

/// The target type of a database type.
///
/// A type in the table maps to its target, inside the optional container
/// where the value may be null and the rule is to wrap. A type that the table
/// lacks is refused in checked mode; in unchecked mode it maps to raw bytes
/// and a warning says so.
pub open spec fn spec_map(
    table: Map<Seq<char>, TypeRuleView>,
    type_id: Seq<char>,
    nullable: bool,
    checked: bool,
) -> Result<MappedView, DiagnosticKindView> {
    if table.dom().contains(type_id) {
        Ok(
            MappedView {
                target: TargetTypeView {
                    base: BaseTypeView::Named(table[type_id].target),
                    optional: nullable && table[type_id].nullable_rule == NullableRule::Wrap,
                },
                warning: None,
            },
        )
    } else if checked {
        Err(DiagnosticKindView::UnsupportedType { type_id })
    } else {
        Ok(
            MappedView {
                target: TargetTypeView { base: BaseTypeView::RawBytes, optional: nullable },
                warning: Some(DiagnosticKindView::UnsupportedType { type_id }),
            },
        )
    }
}

/// The last registration of a type decides.
proof fn lemma_table_last_match(entries: Seq<TypeEntry>, type_id: Seq<char>, at: int)
    requires
        0 <= at < entries.len(),
        entries[at].type_id@ == type_id,
        forall|k: int| at < k < entries.len() ==> entries[k].type_id@ != type_id,
    ensures
        table_of(entries).dom().contains(type_id),
        table_of(entries)[type_id] == entries[at].rule@,
    decreases entries.len(),
{
    if at < entries.len() - 1 {
        lemma_table_last_match(entries.drop_last(), type_id, at);
    }
}

/// A type that was never registered is not in the table.
proof fn lemma_table_no_match(entries: Seq<TypeEntry>, type_id: Seq<char>)
    requires
        forall|k: int| 0 <= k < entries.len() ==> entries[k].type_id@ != type_id,
    ensures
        !table_of(entries).dom().contains(type_id),
    decreases entries.len(),
{
    if entries.len() > 0 {
        lemma_table_no_match(entries.drop_last(), type_id);
    }
}

impl TypeMapping {
    /// The empty table.
    pub fn new() -> (table: TypeMapping)
        ensures
            table@ == Map::<Seq<char>, TypeRuleView>::empty(),
    {
        TypeMapping { entries: Vec::new() }
    }

    /// Registers `target` for the database type `type_id`, in place of what
    /// the table held for that type.
    pub fn register(&mut self, type_id: &str, target: &str, nullable_rule: NullableRule)
        ensures
            final(self)@ == old(self)@.insert(
                type_id@,
                TypeRuleView { target: target@, nullable_rule },
            ),
    {
        let entry = TypeEntry {
            type_id: TypeId::new(type_id),
            rule: TypeRule { target: target.to_owned(), nullable_rule },
        };
        self.entries.push(entry);
        proof {
            assert(self.entries@.drop_last() =~= old(self).entries@);
        }
    }

    /// The rule registered for `type_id`, if any.
    pub fn lookup(&self, type_id: &TypeId) -> (found: Option<&TypeRule>)
        ensures
            found is Some <==> self@.dom().contains(type_id@),
            found matches Some(rule) ==> rule@ == self@[type_id@],
    {
        let mut i: usize = self.entries.len();
        while i > 0
            invariant
                i <= self.entries.len(),
                forall|k: int| i <= k < self.entries.len() ==> self.entries[k].type_id@ != type_id@,
            decreases i,
        {
            i -= 1;
            if self.entries[i].type_id.name == type_id.name {
                proof {
                    lemma_table_last_match(self.entries@, type_id@, i as int);
                }
                return Some(&self.entries[i].rule);
            }
        }
        proof {
            lemma_table_no_match(self.entries@, type_id@);
        }
        None
    }

    /// Maps the database type `type_id` of a value that may be null if `nullable`.
    pub fn map(&self, type_id: &TypeId, nullable: bool, checked: bool) -> (mapped: Result<
        Mapped,
        DiagnosticKind,
    >)
        ensures
            match mapped {
                Ok(m) => spec_map(self@, type_id@, nullable, checked) == Ok::<
                    MappedView,
                    DiagnosticKindView,
                >(m@),
                Err(e) => spec_map(self@, type_id@, nullable, checked) == Err::<
                    MappedView,
                    DiagnosticKindView,
                >(e@),
            },
    {
        match self.lookup(type_id) {
            Some(rule) => {
                let optional = nullable && rule.nullable_rule == NullableRule::Wrap;
                Ok(
                    Mapped {
                        target: TargetType { base: BaseType::Named(rule.target.clone()), optional },
                        warning: None,
                    },
                )
            },
            None => {
                if checked {
                    Err(DiagnosticKind::UnsupportedType { type_id: type_id.name.clone() })
                } else {
                    Ok(
                        Mapped {
                            target: TargetType { base: BaseType::RawBytes, optional: nullable },
                            warning: Some(
                                DiagnosticKind::UnsupportedType { type_id: type_id.name.clone() },
                            ),
                        },
                    )
                }
            },
        }
    }
}

} // verus!
