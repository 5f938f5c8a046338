//! Table provisioning: which remote field schema a table gets, and whether
//! a table is to be created at all.
use vstd::prelude::*;
use crate::schema::{LogicalType, TableSchema};
use crate::text::copy_str;

verus! {

/// The remote type of a table field.
#[derive(PartialEq, Eq, Structural, Clone, Copy, Debug)]
pub enum FieldKind {
    Integer,
    String,
}

/// A remote table field: its name and its type.
#[derive(Clone, Debug)]
pub struct FieldSchema {
    pub name: String,
    pub kind: FieldKind,
}

/// The remote field type that a logical type maps to.
pub open spec fn field_kind_of(t: LogicalType) -> FieldKind {
    match t {
        LogicalType::Int => FieldKind::Integer,
        LogicalType::Str => FieldKind::String,
    }
}

/// The remote field for a column of logical type `db_type` named `name`.
pub fn db_type_to_table_field_schema(db_type: LogicalType, name: &str) -> (r: FieldSchema)
    ensures
        r.name@ == name@,
        r.kind == field_kind_of(db_type),
{
    let kind = match db_type {
        LogicalType::Int => FieldKind::Integer,
        LogicalType::Str => FieldKind::String,
    };
    FieldSchema { name: copy_str(name), kind }
}

/// What to do about a table, given whether the store already has it.
#[derive(Clone, Debug)]
pub enum ProvisionAction {
    /// The table exists: leave it as it is.
    Skip,
    /// The table is missing: create it with these fields, in order.
    Create(Vec<FieldSchema>),
}

/// The fields of a table created for `schema`, as (name, kind) pairs.
pub open spec fn fields_for(schema: Seq<(Seq<char>, LogicalType)>) -> Seq<(Seq<char>, FieldKind)> {
    schema.map_values(|c: (Seq<char>, LogicalType)| (c.0, field_kind_of(c.1)))
}

/// The decision that the provisioner takes, in the abstract: `None` to skip,
/// or the fields of the table to create.
pub open spec fn plan_spec(table_exists: bool, schema: Seq<(Seq<char>, LogicalType)>) -> Option<Seq<(Seq<char>, FieldKind)>> {
    if table_exists {
        None
    } else {
        Some(fields_for(schema))
    }
}

impl ProvisionAction {
    pub open spec fn view(&self) -> Option<Seq<(Seq<char>, FieldKind)>> {
        match self {
            ProvisionAction::Skip => None,
            ProvisionAction::Create(fields) => Some(fields@.map_values(|f: FieldSchema| (f.name@, f.kind))),
        }
    }
}

/// Decides how to provision a table: an existing table is never touched;
/// a missing one is created with one field per schema column, in order.
pub fn plan_table_creation(table_exists: bool, schema: &TableSchema) -> (r: ProvisionAction)
    ensures
        r@ == plan_spec(table_exists, schema@),
{
    if table_exists {
        return ProvisionAction::Skip;
    }
    let mut fields: Vec<FieldSchema> = Vec::new();
    let mut i: usize = 0;
    let n = schema.len();
    while i < n
        invariant
            0 <= i <= n,
            n == schema@.len(),
            fields@.len() == i,
            forall|k: int| 0 <= k < i ==> (#[trigger] fields@[k]).name@ == schema@[k].0
                && fields@[k].kind == field_kind_of(schema@[k].1),
        decreases n - i,
    {
        let (name, ty) = schema.column_at(i);
        fields.push(db_type_to_table_field_schema(ty, name.as_str()));
        i = i + 1;
    }
    let r = ProvisionAction::Create(fields);
    assert(fields@.map_values(|f: FieldSchema| (f.name@, f.kind)) =~= fields_for(schema@));
    r
}

/// Whether the store holds the table after a provisioning step: it did
/// before, or the step asked for creation and the creation succeeded.
pub open spec fn exists_after(table_exists: bool, plan: Option<Seq<(Seq<char>, FieldKind)>>, created: bool) -> bool {
    table_exists || (plan is Some && created)
}

/// Whether a provisioning step reports success: nothing had to be created,
/// or the creation succeeded.
pub open spec fn step_succeeds(plan: Option<Seq<(Seq<char>, FieldKind)>>, created: bool) -> bool {
    plan is None || created
}

/// The outcome of a provisioning step: `create_error` is what the creation
/// call failed with, if it was made and failed. A skipped step succeeds.
pub fn provision_outcome(plan: &ProvisionAction, create_error: Option<String>) -> (r: Result<(), String>)
    ensures
        r is Ok <==> step_succeeds(plan@, create_error is None),
        r matches Err(e) ==> create_error == Some(e),
{
    match plan {
        ProvisionAction::Skip => Ok(()),
        ProvisionAction::Create(_) => match create_error {
            None => Ok(()),
            Some(e) => Err(e),
        },
    }
}

/// Provisioning is idempotent: once a first step against the store has
/// succeeded, a second step against the resulting store creates nothing and
/// succeeds, whatever the outcome of a creation would have been.
pub proof fn lemma_provision_idempotent(
    table_exists: bool,
    schema: Seq<(Seq<char>, LogicalType)>,
    created: bool,
    created_again: bool,
)
    requires
        step_succeeds(plan_spec(table_exists, schema), created),
    ensures
        plan_spec(exists_after(table_exists, plan_spec(table_exists, schema), created), schema) is None,
        step_succeeds(
            plan_spec(exists_after(table_exists, plan_spec(table_exists, schema), created), schema),
            created_again,
        ),
{
}

} // verus!
