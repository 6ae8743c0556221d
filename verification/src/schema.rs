//! Descriptors by which a plugin asks the host to change its schema.
//!
//! A plugin only describes the change. The host applies it, when it sees fit.
//! A descriptor is well formed when every table, column and index it names has
//! a non-empty name and every column has one of the four storage types.

use vstd::prelude::*;
use crate::text::str_eq;

verus! {

/// The host's entities that a plugin can attach schema changes to.
#[derive(Debug, Clone, Copy, PartialEq, Eq, Hash, Structural)]
pub enum EntityType {
    Activity,
    ManualEntry,
    Category,
}

/// A storage type that the host's database knows.
pub open spec fn recognized_column_type(column_type: Seq<char>) -> bool {
    ||| column_type == "INTEGER"@
    ||| column_type == "TEXT"@
    ||| column_type == "REAL"@
    ||| column_type == "BLOB"@
}

/// Whether `column_type` names a storage type that the host's database knows.
pub fn is_recognized_column_type(column_type: &str) -> (known: bool)
    ensures
        known == recognized_column_type(column_type@),
{
    str_eq(column_type, "INTEGER") || str_eq(column_type, "TEXT") || str_eq(column_type, "REAL")
        || str_eq(column_type, "BLOB")
}

/// The column of another table that a column refers to.
#[derive(Debug, Clone, PartialEq, Eq)]
pub struct ForeignKey {
    pub table: String,
    pub column: String,
}

/// What a [`ForeignKey`] holds, as mathematical values.
pub struct ForeignKeyView {
    pub table: Seq<char>,
    pub column: Seq<char>,
}

impl ForeignKeyView {
    /// Both names are non-empty.
    pub open spec fn well_formed(self) -> bool {
        self.table.len() > 0 && self.column.len() > 0
    }
}

impl DeepView for ForeignKey {
    type V = ForeignKeyView;

    open spec fn deep_view(&self) -> ForeignKeyView {
        ForeignKeyView { table: self.table@, column: self.column@ }
    }
}

impl View for ForeignKey {
    type V = ForeignKeyView;

    open spec fn view(&self) -> ForeignKeyView {
        self.deep_view()
    }
}

impl ForeignKey {
    /// Whether both names are non-empty.
    pub fn is_well_formed(&self) -> (ok: bool)
        ensures
            ok == self@.well_formed(),
    {
        !self.table.as_str().is_empty() && !self.column.as_str().is_empty()
    }
}

/// A foreign key that may be absent is well formed when it is absent or well
/// formed.
pub open spec fn optional_key_well_formed(key: Option<ForeignKeyView>) -> bool {
    match key {
        Some(key) => key.well_formed(),
        None => true,
    }
}

/// Whether `key` is absent or well formed.
pub fn is_optional_key_well_formed(key: &Option<ForeignKey>) -> (ok: bool)
    ensures
        ok == optional_key_well_formed(key.deep_view()),
{
    match key {
        Some(key) => key.is_well_formed(),
        None => true,
    }
}

/// One column of a table that a plugin asks for.
#[derive(Debug, Clone, PartialEq, Eq)]
pub struct TableColumn {
    pub name: String,
    pub column_type: String,
    pub primary_key: bool,
    pub nullable: bool,
    pub default: Option<String>,
    pub foreign_key: Option<ForeignKey>,
}

/// What a [`TableColumn`] holds, as mathematical values.
pub struct TableColumnView {
    pub name: Seq<char>,
    pub column_type: Seq<char>,
    pub primary_key: bool,
    pub nullable: bool,
    pub default: Option<Seq<char>>,
    pub foreign_key: Option<ForeignKeyView>,
}

impl TableColumnView {
    /// The column has a name and a recognized type, and its foreign key, if
    /// it has one, is well formed.
    pub open spec fn well_formed(self) -> bool {
        &&& self.name.len() > 0
        &&& recognized_column_type(self.column_type)
        &&& optional_key_well_formed(self.foreign_key)
    }
}

impl DeepView for TableColumn {
    type V = TableColumnView;

    open spec fn deep_view(&self) -> TableColumnView {
        TableColumnView {
            name: self.name@,
            column_type: self.column_type@,
            primary_key: self.primary_key,
            nullable: self.nullable,
            default: self.default.deep_view(),
            foreign_key: self.foreign_key.deep_view(),
        }
    }
}

impl View for TableColumn {
    type V = TableColumnView;

    open spec fn view(&self) -> TableColumnView {
        self.deep_view()
    }
}

impl TableColumn {
    /// Whether the column is well formed.
    pub fn is_well_formed(&self) -> (ok: bool)
        ensures
            ok == self@.well_formed(),
    {
        !self.name.as_str().is_empty() && is_recognized_column_type(
            self.column_type.as_str(),
        ) && is_optional_key_well_formed(&self.foreign_key)
    }
}

/// Every column of `columns` is well formed.
pub open spec fn columns_well_formed(columns: Seq<TableColumnView>) -> bool {
    forall|i: int| 0 <= i < columns.len() ==> (#[trigger] columns[i]).well_formed()
}

/// Every name of `names` is non-empty.
pub open spec fn names_non_empty(names: Seq<Seq<char>>) -> bool {
    forall|i: int| 0 <= i < names.len() ==> (#[trigger] names[i]).len() > 0
}

/// One change to the host's schema.
#[derive(Debug, Clone, PartialEq, Eq)]
pub enum SchemaChange {
    /// Create a table with these columns.
    CreateTable { table: String, columns: Vec<TableColumn> },
    /// Add a column to a table that exists.
    AddColumn {
        table: String,
        column: String,
        column_type: String,
        default: Option<String>,
        foreign_key: Option<ForeignKey>,
    },
    /// Add an index over some columns of a table.
    AddIndex { table: String, index: String, columns: Vec<String> },
    /// Make a column refer to a column of another table.
    AddForeignKey { table: String, column: String, foreign_table: String, foreign_column: String },
}

/// What a [`SchemaChange`] holds, as mathematical values.
pub enum SchemaChangeView {
    CreateTable { table: Seq<char>, columns: Seq<TableColumnView> },
    AddColumn {
        table: Seq<char>,
        column: Seq<char>,
        column_type: Seq<char>,
        default: Option<Seq<char>>,
        foreign_key: Option<ForeignKeyView>,
    },
    AddIndex { table: Seq<char>, index: Seq<char>, columns: Seq<Seq<char>> },
    AddForeignKey {
        table: Seq<char>,
        column: Seq<char>,
        foreign_table: Seq<char>,
        foreign_column: Seq<char>,
    },
}

impl SchemaChangeView {
    /// Every name in the change is non-empty, every column type is
    /// recognized and every column and foreign key is well formed.
    pub open spec fn well_formed(self) -> bool {
        match self {
            SchemaChangeView::CreateTable { table, columns } => {
                table.len() > 0 && columns_well_formed(columns)
            },
            SchemaChangeView::AddColumn { table, column, column_type, default, foreign_key } => {
                &&& table.len() > 0
                &&& column.len() > 0
                &&& recognized_column_type(column_type)
                &&& optional_key_well_formed(foreign_key)
            },
            SchemaChangeView::AddIndex { table, index, columns } => {
                table.len() > 0 && index.len() > 0 && names_non_empty(columns)
            },
            SchemaChangeView::AddForeignKey { table, column, foreign_table, foreign_column } => {
                &&& table.len() > 0
                &&& column.len() > 0
                &&& foreign_table.len() > 0
                &&& foreign_column.len() > 0
            },
        }
    }
}

impl DeepView for SchemaChange {
    type V = SchemaChangeView;

    open spec fn deep_view(&self) -> SchemaChangeView {
        match self {
            SchemaChange::CreateTable { table, columns } => SchemaChangeView::CreateTable {
                table: table@,
                columns: columns.deep_view(),
            },
            SchemaChange::AddColumn {
                table,
                column,
                column_type,
                default,
                foreign_key,
            } => SchemaChangeView::AddColumn {
                table: table@,
                column: column@,
                column_type: column_type@,
                default: default.deep_view(),
                foreign_key: foreign_key.deep_view(),
            },
            SchemaChange::AddIndex { table, index, columns } => SchemaChangeView::AddIndex {
                table: table@,
                index: index@,
                columns: columns.deep_view(),
            },
            SchemaChange::AddForeignKey {
                table,
                column,
                foreign_table,
                foreign_column,
            } => SchemaChangeView::AddForeignKey {
                table: table@,
                column: column@,
                foreign_table: foreign_table@,
                foreign_column: foreign_column@,
            },
        }
    }
}

impl View for SchemaChange {
    type V = SchemaChangeView;

    open spec fn view(&self) -> SchemaChangeView {
        self.deep_view()
    }
}

/// Whether every column of `columns` is well formed.
pub fn are_columns_well_formed(columns: &Vec<TableColumn>) -> (ok: bool)
    ensures
        ok == columns_well_formed(columns.deep_view()),
{
    let mut i: usize = 0;
    while i < columns.len()
        invariant
            i <= columns.len(),
            forall|j: int| 0 <= j < i ==> (#[trigger] columns.deep_view()[j]).well_formed(),
        decreases columns.len() - i,
    {
        if !columns[i].is_well_formed() {
            assert(!columns.deep_view()[i as int].well_formed());
            return false;
        }
        i += 1;
    }
    true
}

/// Whether every name of `names` is non-empty.
pub fn are_names_non_empty(names: &Vec<String>) -> (ok: bool)
    ensures
        ok == names_non_empty(names.deep_view()),
{
    let mut i: usize = 0;
    while i < names.len()
        invariant
            i <= names.len(),
            forall|j: int| 0 <= j < i ==> (#[trigger] names.deep_view()[j]).len() > 0,
        decreases names.len() - i,
    {
        if names[i].as_str().is_empty() {
            assert(names.deep_view()[i as int].len() == 0);
            return false;
        }
        i += 1;
    }
    true
}

impl SchemaChange {
    /// Whether the change is well formed.
    pub fn is_well_formed(&self) -> (ok: bool)
        ensures
            ok == self@.well_formed(),
    {
        match self {
            SchemaChange::CreateTable { table, columns } => {
                !table.as_str().is_empty() && are_columns_well_formed(columns)
            },
            SchemaChange::AddColumn { table, column, column_type, default: _, foreign_key } => {
                !table.as_str().is_empty() && !column.as_str().is_empty()
                    && is_recognized_column_type(column_type.as_str())
                    && is_optional_key_well_formed(foreign_key)
            },
            SchemaChange::AddIndex { table, index, columns } => {
                !table.as_str().is_empty() && !index.as_str().is_empty()
                    && are_names_non_empty(columns)
            },
            SchemaChange::AddForeignKey { table, column, foreign_table, foreign_column } => {
                !table.as_str().is_empty() && !column.as_str().is_empty()
                    && !foreign_table.as_str().is_empty()
                    && !foreign_column.as_str().is_empty()
            },
        }
    }
}

/// Every change of `changes` is well formed.
pub open spec fn changes_well_formed(changes: Seq<SchemaChangeView>) -> bool {
    forall|i: int| 0 <= i < changes.len() ==> (#[trigger] changes[i]).well_formed()
}

/// Whether every change of `changes` is well formed.
pub fn are_changes_well_formed(changes: &Vec<SchemaChange>) -> (ok: bool)
    ensures
        ok == changes_well_formed(changes.deep_view()),
{
    let mut i: usize = 0;
    while i < changes.len()
        invariant
            i <= changes.len(),
            forall|j: int| 0 <= j < i ==> (#[trigger] changes.deep_view()[j]).well_formed(),
        decreases changes.len() - i,
    {
        if !changes[i].is_well_formed() {
            assert(!changes.deep_view()[i as int].well_formed());
            return false;
        }
        i += 1;
    }
    true
}

/// The schema changes that a plugin declares for one entity.
#[derive(Debug, Clone, PartialEq, Eq)]
pub struct SchemaExtension {
    pub entity_type: EntityType,
    pub schema_changes: Vec<SchemaChange>,
}

/// What a [`SchemaExtension`] holds, as mathematical values.
pub struct SchemaExtensionView {
    pub entity_type: EntityType,
    pub schema_changes: Seq<SchemaChangeView>,
}

impl SchemaExtensionView {
    /// Every change of the extension is well formed.
    pub open spec fn well_formed(self) -> bool {
        changes_well_formed(self.schema_changes)
    }
}

impl DeepView for SchemaExtension {
    type V = SchemaExtensionView;

    open spec fn deep_view(&self) -> SchemaExtensionView {
        SchemaExtensionView {
            entity_type: self.entity_type,
            schema_changes: self.schema_changes.deep_view(),
        }
    }
}

impl View for SchemaExtension {
    type V = SchemaExtensionView;

    open spec fn view(&self) -> SchemaExtensionView {
        self.deep_view()
    }
}

impl SchemaExtension {
    /// Whether the extension is well formed.
    pub fn is_well_formed(&self) -> (ok: bool)
        ensures
            ok == self@.well_formed(),
    {
        are_changes_well_formed(&self.schema_changes)
    }
}

/// Every extension of `extensions` is well formed.
pub open spec fn extensions_well_formed(extensions: Seq<SchemaExtensionView>) -> bool {
    forall|i: int| 0 <= i < extensions.len() ==> (#[trigger] extensions[i]).well_formed()
}

} // verus!
