//! How the database of the client is opened.

use vstd::prelude::*;

verus! {

/// The column families of the database.
#[derive(Clone, Copy, Debug, PartialEq, Eq, Structural)]
pub enum ColumnFamily {
    ConfidenceFactor,
    BlockHeader,
    AppData,
    State,
    LatestBlock,
    ConfidenceAchievedBlocks,
    BlocksList,
    BlocksListLength,
    ConfidenceAchievedMessage,
    HeaderVerifiedMessage,
    DataVerifiedMessage,
}

/// How many write buffers a column family may build up in memory.
pub const MAX_WRITE_BUFFER_NUMBER: i32 = 16;

/// A column family and the options that it is opened with.
#[derive(Clone, Copy, Debug, PartialEq, Eq, Structural)]
pub struct FamilyOptions {
    pub family: ColumnFamily,
    pub max_write_buffer_number: i32,
}

/// What the database is opened for.
#[derive(Clone, Copy, Debug, PartialEq, Eq, Structural)]
pub enum Access {
    ReadWrite,
    ReadOnly {
        /// Opening fails when a write-ahead log of a writer is there.
        error_if_log_file_exist: bool,
    },
}

/// Everything that opening the database needs.
#[derive(Debug)]
pub struct DatabasePlan {
    pub path: String,
    pub access: Access,
    pub create_if_missing: bool,
    pub create_missing_column_families: bool,
    /// The column families, in the order in which they are opened.
    pub families: Vec<FamilyOptions>,
}

/// What a [`DatabasePlan`] says.
pub struct DatabasePlanView {
    pub path: Seq<char>,
    pub access: Access,
    pub create_if_missing: bool,
    pub create_missing_column_families: bool,
    pub families: Seq<FamilyOptions>,
}

impl View for DatabasePlan {
    type V = DatabasePlanView;

    open spec fn view(&self) -> DatabasePlanView {
        DatabasePlanView {
            path: self.path@,
            access: self.access,
            create_if_missing: self.create_if_missing,
            create_missing_column_families: self.create_missing_column_families,
            families: self.families@,
        }
    }
}

/// The column families in the order in which they are opened.
pub open spec fn family_order() -> Seq<ColumnFamily> {
    seq![
        ColumnFamily::ConfidenceFactor,
        ColumnFamily::BlockHeader,
        ColumnFamily::AppData,
        ColumnFamily::State,
        ColumnFamily::LatestBlock,
        ColumnFamily::ConfidenceAchievedBlocks,
        ColumnFamily::BlocksList,
        ColumnFamily::BlocksListLength,
        ColumnFamily::ConfidenceAchievedMessage,
        ColumnFamily::HeaderVerifiedMessage,
        ColumnFamily::DataVerifiedMessage,
    ]
}

/// The plan for a database at `path`.
pub open spec fn database_plan(path: Seq<char>, read_only: bool) -> DatabasePlanView {
    DatabasePlanView {
        path,
        access: if read_only {
            Access::ReadOnly { error_if_log_file_exist: false }
        } else {
            Access::ReadWrite
        },
        create_if_missing: true,
        create_missing_column_families: true,
        families: family_order().map_values(
            |family: ColumnFamily|
                FamilyOptions { family, max_write_buffer_number: MAX_WRITE_BUFFER_NUMBER },
        ),
    }
}

fn family_options(family: ColumnFamily) -> (options: FamilyOptions)
    ensures
        options.family == family,
        options.max_write_buffer_number == MAX_WRITE_BUFFER_NUMBER,
{
    FamilyOptions { family, max_write_buffer_number: MAX_WRITE_BUFFER_NUMBER }
}

/// How the database at `path` is opened: what is missing is created, and every column family is
/// there, for writing or for reading only.
pub fn init_db(path: &str, read_only: bool) -> (plan: DatabasePlan)
    ensures
        plan@ == database_plan(path@, read_only),
        plan.path@ == path@,
        plan.access == if read_only {
            Access::ReadOnly { error_if_log_file_exist: false }
        } else {
            Access::ReadWrite
        },
        plan.create_if_missing && plan.create_missing_column_families,
        plan.families@.len() == 11,
        forall|i: int|
            0 <= i < plan.families@.len() ==> (
            #[trigger] plan.families@[i]).max_write_buffer_number == 16,
{
    let families = vec![
        family_options(ColumnFamily::ConfidenceFactor),
        family_options(ColumnFamily::BlockHeader),
        family_options(ColumnFamily::AppData),
        family_options(ColumnFamily::State),
        family_options(ColumnFamily::LatestBlock),
        family_options(ColumnFamily::ConfidenceAchievedBlocks),
        family_options(ColumnFamily::BlocksList),
        family_options(ColumnFamily::BlocksListLength),
        family_options(ColumnFamily::ConfidenceAchievedMessage),
        family_options(ColumnFamily::HeaderVerifiedMessage),
        family_options(ColumnFamily::DataVerifiedMessage),
    ];
    let access = if read_only {
        Access::ReadOnly { error_if_log_file_exist: false }
    } else {
        Access::ReadWrite
    };
    let plan = DatabasePlan {
        path: path.to_owned(),
        access,
        create_if_missing: true,
        create_missing_column_families: true,
        families,
    };
    assert(plan@.families =~= database_plan(path@, read_only).families);
    plan
}

/// Entry `i` of the plan opens `family`.
pub open spec fn opens(plan: DatabasePlanView, i: int, family: ColumnFamily) -> bool {
    0 <= i < plan.families.len() && plan.families[i].family == family
}

/// The plan opens every column family, and each of them once.
pub proof fn every_family_is_opened_once(path: Seq<char>, read_only: bool, family: ColumnFamily)
    ensures
        exists|i: int| opens(database_plan(path, read_only), i, family),
        forall|i: int, j: int|
            opens(database_plan(path, read_only), i, family) && opens(
                database_plan(path, read_only),
                j,
                family,
            ) ==> i == j,
{
    let at: int = match family {
        ColumnFamily::ConfidenceFactor => 0,
        ColumnFamily::BlockHeader => 1,
        ColumnFamily::AppData => 2,
        ColumnFamily::State => 3,
        ColumnFamily::LatestBlock => 4,
        ColumnFamily::ConfidenceAchievedBlocks => 5,
        ColumnFamily::BlocksList => 6,
        ColumnFamily::BlocksListLength => 7,
        ColumnFamily::ConfidenceAchievedMessage => 8,
        ColumnFamily::HeaderVerifiedMessage => 9,
        ColumnFamily::DataVerifiedMessage => 10,
    };
    assert(opens(database_plan(path, read_only), at, family));
}

/// A database that was opened for writing is opened for reading with the same column families
/// and the same options.
pub proof fn a_reader_opens_what_a_writer_opened(path: Seq<char>)
    ensures
        database_plan(path, true).families == database_plan(path, false).families,
        database_plan(path, true).path == database_plan(path, false).path,
{
}

/// A plan is for the path that it was asked for, and it is for reading only exactly where that was
/// asked for; then a log that a writer left is no error. What is missing is created either way.
pub proof fn a_plan_opens_what_is_asked(path: Seq<char>, read_only: bool)
    ensures
        database_plan(path, read_only).path == path,
        database_plan(path, read_only).access is ReadOnly <==> read_only,
        database_plan(path, read_only).access is ReadWrite <==> !read_only,
        read_only ==> !database_plan(path, read_only).access->error_if_log_file_exist,
        database_plan(path, read_only).create_if_missing,
        database_plan(path, read_only).create_missing_column_families,
{
}

/// The column families stand in the plan in one order, whatever the path and the access, each with
/// sixteen write buffers.
pub proof fn every_family_has_its_place(path: Seq<char>, read_only: bool)
    ensures
        ({
            let plan = database_plan(path, read_only);
            &&& plan.families.len() == 11
            &&& opens(plan, 0, ColumnFamily::ConfidenceFactor)
            &&& opens(plan, 1, ColumnFamily::BlockHeader)
            &&& opens(plan, 2, ColumnFamily::AppData)
            &&& opens(plan, 3, ColumnFamily::State)
            &&& opens(plan, 4, ColumnFamily::LatestBlock)
            &&& opens(plan, 5, ColumnFamily::ConfidenceAchievedBlocks)
            &&& opens(plan, 6, ColumnFamily::BlocksList)
            &&& opens(plan, 7, ColumnFamily::BlocksListLength)
            &&& opens(plan, 8, ColumnFamily::ConfidenceAchievedMessage)
            &&& opens(plan, 9, ColumnFamily::HeaderVerifiedMessage)
            &&& opens(plan, 10, ColumnFamily::DataVerifiedMessage)
            &&& forall|i: int|
                0 <= i < plan.families.len() ==> (
                #[trigger] plan.families[i]).max_write_buffer_number == 16
        }),
{
}

} // verus!
