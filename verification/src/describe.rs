//! What the database reports about a query: the types of its parameters and
//! the columns of its result, both in the order in which the backend gave them.

use vstd::prelude::*;

verus! {

/// The name under which a database knows one of its types.
#[derive(Debug, PartialEq, Eq)]
pub struct TypeId {
    pub name: String,
}

impl View for TypeId {
    type V = Seq<char>;

    open spec fn view(&self) -> Seq<char> {
        self.name@
    }
}

impl TypeId {
    /// The type that the database calls `name`.
    pub fn new(name: &str) -> (id: TypeId)
        ensures
            id@ == name@,
    {
        TypeId { name: name.to_owned() }
    }
}

impl Clone for TypeId {
    fn clone(&self) -> (copy: TypeId)
        ensures
            copy@ == self@,
    {
        TypeId { name: self.name.clone() }
    }
}

/// One column of a query's result.
#[derive(Debug, PartialEq, Eq)]
pub struct Column {
    /// The column's name, where the database gives one.
    pub name: Option<String>,
    pub type_id: TypeId,
    /// Whether the column may hold null; `None` where the database cannot tell.
    pub nullable: Option<bool>,
}

/// A column as a plain value.
pub struct ColumnView {
    pub name: Option<Seq<char>>,
    pub type_id: Seq<char>,
    pub nullable: Option<bool>,
}

/// The characters of an optional string.
pub open spec fn text_of(s: Option<String>) -> Option<Seq<char>> {
    match s {
        Some(t) => Some(t@),
        None => None,
    }
}

impl View for Column {
    type V = ColumnView;

    open spec fn view(&self) -> ColumnView {
        ColumnView { name: text_of(self.name), type_id: self.type_id@, nullable: self.nullable }
    }
}

impl Clone for Column {
    fn clone(&self) -> (copy: Column)
        ensures
            copy@ == self@,
    {
        let name = match &self.name {
            Some(n) => Some(n.clone()),
            None => None,
        };
        Column { name, type_id: self.type_id.clone(), nullable: self.nullable }
    }
}

/// The views of a sequence of type names.
pub open spec fn type_views(types: Seq<TypeId>) -> Seq<Seq<char>> {
    types.map_values(|t: TypeId| t@)
}

/// The views of a sequence of columns.
pub open spec fn column_views(columns: Seq<Column>) -> Seq<ColumnView> {
    columns.map_values(|c: Column| c@)
}

/// The database's account of one query.
#[derive(Debug, PartialEq, Eq)]
pub struct Describe {
    pub param_types: Vec<TypeId>,
    pub result_columns: Vec<Column>,
}

/// A query's description as a plain value.
pub struct DescribeView {
    pub param_types: Seq<Seq<char>>,
    pub result_columns: Seq<ColumnView>,
}

impl View for Describe {
    type V = DescribeView;

    open spec fn view(&self) -> DescribeView {
        DescribeView {
            param_types: type_views(self.param_types@),
            result_columns: column_views(self.result_columns@),
        }
    }
}

/// The index of the first column at or after `from` that is called `name`.
pub open spec fn find_column(columns: Seq<ColumnView>, name: Seq<char>, from: nat) -> Option<nat>
    decreases columns.len() - from,
{
    if from >= columns.len() {
        None
    } else if columns[from as int].name == Some(name) {
        Some(from)
    } else {
        find_column(columns, name, from + 1)
    }
}

/// The index of the first column at or after `from` of which the database
/// cannot tell whether it may be null.
pub open spec fn first_unknown_nullability(columns: Seq<ColumnView>, from: nat) -> Option<nat>
    decreases columns.len() - from,
{
    if from >= columns.len() {
        None
    } else if columns[from as int].nullable is None {
        Some(from)
    } else {
        first_unknown_nullability(columns, from + 1)
    }
}

/// Whether `column` is called `name`.
pub fn column_is_named(column: &Column, name: &String) -> (same: bool)
    ensures
        same == (column@.name == Some(name@)),
{
    match &column.name {
        Some(n) => *n == *name,
        None => false,
    }
}

/// Finds the first column called `name`.
pub fn find_column_index(columns: &Vec<Column>, name: &String) -> (found: Option<usize>)
    ensures
        match found {
            Some(i) => find_column(column_views(columns@), name@, 0) == Some(i as nat),
            None => find_column(column_views(columns@), name@, 0) is None,
        },
{
    let mut i: usize = 0;
    while i < columns.len()
        invariant
            i <= columns.len(),
            find_column(column_views(columns@), name@, 0) == find_column(
                column_views(columns@),
                name@,
                i as nat,
            ),
        decreases columns.len() - i,
    {
        if column_is_named(&columns[i], name) {
            return Some(i);
        }
        i += 1;
    }
    None
}

/// A copy of `types`, name for name.
pub fn clone_types(types: &Vec<TypeId>) -> (copy: Vec<TypeId>)
    ensures
        type_views(copy@) == type_views(types@),
{
    let mut copy: Vec<TypeId> = Vec::new();
    let mut i: usize = 0;
    while i < types.len()
        invariant
            i <= types.len(),
            copy.len() == i,
            forall|k: int| 0 <= k < i ==> copy[k]@ == types[k]@,
        decreases types.len() - i,
    {
        copy.push(types[i].clone());
        i += 1;
    }
    assert(type_views(copy@) =~= type_views(types@));
    copy
}

/// A copy of `columns`, column for column.
pub fn clone_columns(columns: &Vec<Column>) -> (copy: Vec<Column>)
    ensures
        column_views(copy@) == column_views(columns@),
{
    let mut copy: Vec<Column> = Vec::new();
    let mut i: usize = 0;
    while i < columns.len()
        invariant
            i <= columns.len(),
            copy.len() == i,
            forall|k: int| 0 <= k < i ==> copy[k]@ == columns[k]@,
        decreases columns.len() - i,
    {
        copy.push(columns[i].clone());
        i += 1;
    }
    assert(column_views(copy@) =~= column_views(columns@));
    copy
}

impl Clone for Describe {
    fn clone(&self) -> (copy: Describe)
        ensures
            copy@ == self@,
    {
        Describe {
            param_types: clone_types(&self.param_types),
            result_columns: clone_columns(&self.result_columns),
        }
    }
}

} // verus!
