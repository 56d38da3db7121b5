//! Table declarations over the four planes. Every table starts with the
//! seven spine columns; its own columns follow. No table of the Control or
//! Execution plane may hold a large-text column: a declaration that tried
//! to would not verify, and a batch that does is refused when it is wrapped.

use vstd::prelude::*;
use vstd::string::StringExecFns;

use crate::columnar::{batch_columns, Column, ColumnBatch, ColumnKind};
use crate::plane::Plane;

verus! {

/// The type of a declared column.
#[derive(Clone, Copy, Debug, PartialEq, Eq, Structural)]
pub enum ColumnType {
    /// Binary values of a fixed number of bytes.
    FixedSizeBinary(i32),
    Utf8,
    /// Text with 64-bit offsets: the large-text payload type.
    LargeUtf8,
    UInt32,
    UInt16,
    UInt8,
    Int64,
    Int32,
    Int16,
    Boolean,
    Float32,
    Float64,
    /// Strings, dictionary-encoded with 8-bit keys.
    DictU8Utf8,
    /// A map from strings to strings.
    MapUtf8Utf8,
    /// A list of strings.
    ListUtf8,
    /// A list of a fixed number of single-precision numbers.
    FixedSizeListF32(i32),
    /// Milliseconds since the epoch, in UTC.
    TimestampMsUtc,
}

/// One declared column.
#[derive(Clone, Copy, Debug)]
pub struct FieldDef {
    pub name: &'static str,
    pub ty: ColumnType,
    pub nullable: bool,
}

/// A declared column as plain values.
pub struct FieldView {
    pub name: Seq<char>,
    pub ty: ColumnType,
    pub nullable: bool,
}

impl View for FieldDef {
    type V = FieldView;

    open spec fn view(&self) -> FieldView {
        FieldView { name: self.name@, ty: self.ty, nullable: self.nullable }
    }
}

/// The views of a sequence of declared columns.
pub open spec fn field_views(fields: Seq<FieldDef>) -> Seq<FieldView> {
    fields.map_values(|f: FieldDef| f@)
}

/// The seven spine columns that every table starts with. None is nullable.
pub open spec fn spine() -> Seq<FieldView> {
    seq![
        FieldView { name: "row_id"@, ty: ColumnType::FixedSizeBinary(16), nullable: false },
        FieldView { name: "tenant_id"@, ty: ColumnType::FixedSizeBinary(16), nullable: false },
        FieldView { name: "plane"@, ty: ColumnType::UInt8, nullable: false },
        FieldView { name: "kind"@, ty: ColumnType::DictU8Utf8, nullable: false },
        FieldView { name: "schema_version"@, ty: ColumnType::UInt16, nullable: false },
        FieldView { name: "ts_created"@, ty: ColumnType::TimestampMsUtc, nullable: false },
        FieldView { name: "ts_valid_from"@, ty: ColumnType::TimestampMsUtc, nullable: false },
    ]
}

/// A payload column: always nullable.
pub open spec fn column(name: Seq<char>, ty: ColumnType) -> FieldView {
    FieldView { name, ty, nullable: true }
}

/// The TXT axiom for a list of declared columns: in a plane that forbids
/// large text, none of them is large text.
pub open spec fn txt_axiom(plane: Plane, fields: Seq<FieldView>) -> bool {
    plane.forbids_large_text() ==> forall|i: int|
        0 <= i < fields.len() ==> (#[trigger] fields[i]).ty != ColumnType::LargeUtf8
}

/// The columns of a table: the spine, then the payload.
#[derive(Clone, Debug)]
pub struct TableSchema {
    pub fields: Vec<FieldDef>,
}

impl View for TableSchema {
    type V = Seq<FieldView>;

    open spec fn view(&self) -> Seq<FieldView> {
        field_views(self.fields@)
    }
}

/// The payload columns of a table under declaration. A column can only be
/// added if the plane admits its type, so a finished payload satisfies the
/// TXT axiom.
pub struct Payload {
    plane: Plane,
    fields: Vec<FieldDef>,
}

impl Payload {
    /// The plane of the table under declaration.
    pub closed spec fn plane(&self) -> Plane {
        self.plane
    }

    /// The columns declared so far.
    pub closed spec fn fields(&self) -> Seq<FieldView> {
        field_views(self.fields@)
    }

    /// Whether the columns declared so far satisfy the TXT axiom.
    pub closed spec fn wf(&self) -> bool {
        txt_axiom(self.plane, field_views(self.fields@))
    }

    /// Starts the declaration of a table of the given plane.
    pub fn new(plane: Plane) -> (p: Payload)
        ensures
            p.wf(),
            p.plane() == plane,
            p.fields() == Seq::<FieldView>::empty(),
    {
        let p = Payload { plane, fields: Vec::new() };
        assert(field_views(p.fields@) == Seq::<FieldView>::empty());
        p
    }

    /// Declares a nullable column. A large-text column cannot be declared
    /// in a plane that forbids large text.
    pub fn with(self, name: &'static str, ty: ColumnType) -> (p: Payload)
        requires
            self.wf(),
            self.plane().forbids_large_text() ==> ty != ColumnType::LargeUtf8,
        ensures
            p.wf(),
            p.plane() == self.plane(),
            p.fields() == self.fields().push(column(name@, ty)),
    {
        let mut p = self;
        let field = FieldDef { name, ty, nullable: true };
        p.fields.push(field);
        assert(field_views(p.fields@) == field_views(self.fields@).push(field@));
        p
    }

    /// The declared columns.
    pub fn finish(self) -> (fields: Vec<FieldDef>)
        requires
            self.wf(),
        ensures
            field_views(fields@) == self.fields(),
            txt_axiom(self.plane(), field_views(fields@)),
    {
        self.fields
    }
}

/// The declaration of a table: its plane, its kind, and its payload
/// columns, which must satisfy the TXT axiom for that plane.
pub trait TableDef {
    /// The plane of the table.
    spec fn table_plane() -> Plane;

    /// The kind of the table, which is also its name.
    spec fn table_kind() -> Seq<char>;

    /// The payload columns of the table, in declaration order.
    spec fn table_payload() -> Seq<FieldView>;

    /// The plane of the table.
    fn plane() -> (p: Plane)
        ensures
            p == Self::table_plane(),
    ;

    /// The kind of the table, which is also its name.
    fn kind() -> (k: &'static str)
        ensures
            k@ == Self::table_kind(),
    ;

    /// The payload columns of the table, in declaration order.
    fn payload() -> (fields: Vec<FieldDef>)
        ensures
            field_views(fields@) == Self::table_payload(),
            txt_axiom(Self::table_plane(), field_views(fields@)),
    ;
}

/// Why a table or a batch was refused.
#[derive(Debug)]
pub enum SchemaError {
    /// A table of a plane that forbids large text has a large-text column.
    TxtAxiomViolated { table: String, plane: Plane, column: String },
}

/// A schema error as plain values.
pub enum SchemaErrorView {
    TxtAxiomViolated { table: Seq<char>, plane: Plane, column: Seq<char> },
}

impl View for SchemaError {
    type V = SchemaErrorView;

    open spec fn view(&self) -> SchemaErrorView {
        match self {
            SchemaError::TxtAxiomViolated { table, plane, column } =>
                SchemaErrorView::TxtAxiomViolated {
                table: table@,
                plane: *plane,
                column: column@,
            },
        }
    }
}

impl SchemaErrorView {
    /// The message of this error.
    pub open spec fn message(self) -> Seq<char> {
        match self {
            SchemaErrorView::TxtAxiomViolated { table, plane, column } =>
                "TXT axiom violated: table "@ + table + " in plane "@ + plane.spec_name()
                    + " has LargeUtf8 column "@ + column,
        }
    }
}

impl SchemaError {
    /// The message of this error.
    pub fn message(&self) -> (text: String)
        ensures
            text@ == self@.message(),
    {
        match self {
            SchemaError::TxtAxiomViolated { table, plane, column } => {
                let mut text = "TXT axiom violated: table ".to_owned();
                text.append(table.as_str());
                text.append(" in plane ");
                text.append(plane.name());
                text.append(" has LargeUtf8 column ");
                text.append(column.as_str());
                text
            },
        }
    }
}

/// The position of the first large-text column among the first `n`, if
/// there is one.
pub open spec fn first_large_text(columns: Seq<Column>, n: int) -> Option<int>
    decreases n,
{
    if n <= 0 {
        None
    } else {
        match first_large_text(columns, n - 1) {
            Some(i) => Some(i),
            None => if columns[n - 1].data.kind() == ColumnKind::LargeUtf8 {
                Some(n - 1)
            } else {
                None
            },
        }
    }
}

/// What the TXT check answers for a batch: a violation at the first
/// large-text column if the plane forbids large text, and nothing otherwise.
pub open spec fn txt_violation(
    table_name: Seq<char>,
    plane: Plane,
    columns: Seq<Column>,
) -> Option<SchemaErrorView> {
    if plane.forbids_large_text() {
        match first_large_text(columns, columns.len() as int) {
            Some(i) => Some(
                SchemaErrorView::TxtAxiomViolated {
                    table: table_name,
                    plane,
                    column: columns[i].name,
                },
            ),
            None => None,
        }
    } else {
        None
    }
}

/// Checks the TXT axiom on a batch: a batch for a Control or Execution
/// table must have no large-text column. The first such column is named in
/// the error.
pub fn __check_txt_invariants(table_name: &str, plane: &Plane, batch: &ColumnBatch) -> (r: Result<
    (),
    SchemaError,
>)
    ensures
        match txt_violation(table_name@, *plane, batch_columns(*batch)) {
            None => r.is_ok(),
            Some(v) => r matches Err(e) && e@ == v,
        },
{
    match plane {
        Plane::Control | Plane::Execution => {},
        _ => { return Ok(()); },
    }
    let n = batch.num_columns();
    let mut col: usize = 0;
    while col < n
        invariant
            col <= n,
            n == batch_columns(*batch).len(),
            plane.forbids_large_text(),
            first_large_text(batch_columns(*batch), col as int).is_none(),
        decreases n - col,
    {
        match batch.column_kind(col) {
            ColumnKind::LargeUtf8 => {
                proof {
                    let columns = batch_columns(*batch);
                    assert(first_large_text(columns, col as int + 1) == Some(col as int));
                    lemma_first_large_text_persists(columns, col as int + 1, n as int);
                }
                return Err(
                    SchemaError::TxtAxiomViolated {
                        table: table_name.to_owned(),
                        plane: *plane,
                        column: batch.column_name(col),
                    },
                );
            },
            _ => {},
        }
        col = col + 1;
    }
    Ok(())
}

/// Once a large-text column is found among the first `n` columns, it stays
/// the first among any more.
pub proof fn lemma_first_large_text_persists(columns: Seq<Column>, n: int, m: int)
    requires
        0 <= n <= m,
        first_large_text(columns, n).is_some(),
    ensures
        first_large_text(columns, m) == first_large_text(columns, n),
    decreases m - n,
{
    if n < m {
        lemma_first_large_text_persists(columns, n, m - 1);
    }
}

/// A batch that was accepted as holding rows of the table `D`.
pub struct Table<D: TableDef> {
    inner: ColumnBatch,
    def: core::marker::PhantomData<D>,
}

impl<D: TableDef> Table<D> {
    /// The batch that this wrapper holds.
    pub closed spec fn batch(&self) -> ColumnBatch {
        self.inner
    }

    /// The columns of the table: the seven spine columns, then the payload.
    pub fn schema() -> (schema: TableSchema)
        ensures
            schema@ == spine() + D::table_payload(),
            txt_axiom(D::table_plane(), schema@),
    {
        let mut fields: Vec<FieldDef> = Vec::new();
        fields.push(spine_field("row_id", ColumnType::FixedSizeBinary(16)));
        fields.push(spine_field("tenant_id", ColumnType::FixedSizeBinary(16)));
        fields.push(spine_field("plane", ColumnType::UInt8));
        fields.push(spine_field("kind", ColumnType::DictU8Utf8));
        fields.push(spine_field("schema_version", ColumnType::UInt16));
        fields.push(spine_field("ts_created", ColumnType::TimestampMsUtc));
        fields.push(spine_field("ts_valid_from", ColumnType::TimestampMsUtc));
        assert(field_views(fields@) == spine());
        let mut payload = D::payload();
        let ghost declared = field_views(payload@);
        fields.append(&mut payload);
        assert(field_views(fields@) == spine() + declared);
        TableSchema { fields }
    }

    /// Wraps a batch as rows of this table, after checking the TXT axiom on
    /// the batch itself.
    pub fn new(inner: ColumnBatch) -> (r: Result<Table<D>, SchemaError>)
        ensures
            match txt_violation(D::table_kind(), D::table_plane(), batch_columns(inner)) {
                None => r matches Ok(t) && t.batch() == inner,
                Some(v) => r matches Err(e) && e@ == v,
            },
    {
        let plane = D::plane();
        match __check_txt_invariants(D::kind(), &plane, &inner) {
            Ok(_) => Ok(Table { inner, def: core::marker::PhantomData }),
            Err(e) => Err(e),
        }
    }

    /// The batch that this wrapper holds.
    pub fn inner(&self) -> (b: &ColumnBatch)
        ensures
            *b == self.batch(),
    {
        &self.inner
    }
}

/// A spine column: never nullable.
fn spine_field(name: &'static str, ty: ColumnType) -> (f: FieldDef)
    ensures
        f@ == (FieldView { name: name@, ty, nullable: false }),
{
    FieldDef { name, ty, nullable: false }
}

} // verus!
