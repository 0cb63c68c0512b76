//! Coded enumerations: each has an integer code, and every integer reads as
//! a variant, unknown codes as a fixed one.
use vstd::prelude::*;

verus! {
/// Account status.
#[derive(Debug, Clone, Copy, PartialEq, Eq, Structural)]
pub enum UserStatus {
    /// In use.
    Normal,
    /// Disabled.
    Disabled,
}

impl UserStatus {
    /// The code of a variant.
    pub open spec fn code(self) -> i32 {
        match self {
            UserStatus::Normal => 0,
            UserStatus::Disabled => 1,
        }
    }

    /// The variant of a code; Disabled for an unknown one.
    pub open spec fn of_code(value: i32) -> UserStatus {
        if value == 0 {
            UserStatus::Normal
        } else if value == 1 {
            UserStatus::Disabled
        } else {
            UserStatus::Disabled
        }
    }
}

impl From<i32> for UserStatus {
    fn from(value: i32) -> UserStatus {
        match value {
            0 => UserStatus::Normal,
            1 => UserStatus::Disabled,
            _ => UserStatus::Disabled,
        }
    }
}

impl vstd::std_specs::convert::FromSpecImpl<i32> for UserStatus {
    open spec fn obeys_from_spec() -> bool {
        true
    }

    open spec fn from_spec(v: i32) -> UserStatus {
        UserStatus::of_code(v)
    }
}

impl From<UserStatus> for i32 {
    fn from(value: UserStatus) -> i32 {
        match value {
            UserStatus::Normal => 0,
            UserStatus::Disabled => 1,
        }
    }
}

impl vstd::std_specs::convert::FromSpecImpl<UserStatus> for i32 {
    open spec fn obeys_from_spec() -> bool {
        true
    }

    open spec fn from_spec(v: UserStatus) -> i32 {
        v.code()
    }
}

/// Deletion flag.
#[derive(Debug, Clone, Copy, PartialEq, Eq, Structural)]
pub enum DelFlag {
    /// Present.
    Exists,
    /// Deleted.
    Deleted,
}

impl DelFlag {
    /// The code of a variant.
    pub open spec fn code(self) -> i32 {
        match self {
            DelFlag::Exists => 0,
            DelFlag::Deleted => 2,
        }
    }

    /// The variant of a code; Exists for an unknown one.
    pub open spec fn of_code(value: i32) -> DelFlag {
        if value == 0 {
            DelFlag::Exists
        } else if value == 2 {
            DelFlag::Deleted
        } else {
            DelFlag::Exists
        }
    }
}

impl From<i32> for DelFlag {
    fn from(value: i32) -> DelFlag {
        match value {
            0 => DelFlag::Exists,
            2 => DelFlag::Deleted,
            _ => DelFlag::Exists,
        }
    }
}

impl vstd::std_specs::convert::FromSpecImpl<i32> for DelFlag {
    open spec fn obeys_from_spec() -> bool {
        true
    }

    open spec fn from_spec(v: i32) -> DelFlag {
        DelFlag::of_code(v)
    }
}

impl From<DelFlag> for i32 {
    fn from(value: DelFlag) -> i32 {
        match value {
            DelFlag::Exists => 0,
            DelFlag::Deleted => 2,
        }
    }
}

impl vstd::std_specs::convert::FromSpecImpl<DelFlag> for i32 {
    open spec fn obeys_from_spec() -> bool {
        true
    }

    open spec fn from_spec(v: DelFlag) -> i32 {
        v.code()
    }
}

/// Kind of menu entry.
#[derive(Debug, Clone, Copy, PartialEq, Eq, Structural)]
pub enum MenuType {
    /// A directory.
    Directory,
    /// A menu.
    Menu,
    /// A button.
    Button,
}

impl MenuType {
    /// The code of a variant.
    pub open spec fn code(self) -> i32 {
        match self {
            MenuType::Directory => 0,
            MenuType::Menu => 1,
            MenuType::Button => 2,
        }
    }

    /// The variant of a code; Directory for an unknown one.
    pub open spec fn of_code(value: i32) -> MenuType {
        if value == 0 {
            MenuType::Directory
        } else if value == 1 {
            MenuType::Menu
        } else if value == 2 {
            MenuType::Button
        } else {
            MenuType::Directory
        }
    }
}

impl From<i32> for MenuType {
    fn from(value: i32) -> MenuType {
        match value {
            0 => MenuType::Directory,
            1 => MenuType::Menu,
            2 => MenuType::Button,
            _ => MenuType::Directory,
        }
    }
}

impl vstd::std_specs::convert::FromSpecImpl<i32> for MenuType {
    open spec fn obeys_from_spec() -> bool {
        true
    }

    open spec fn from_spec(v: i32) -> MenuType {
        MenuType::of_code(v)
    }
}

impl From<MenuType> for i32 {
    fn from(value: MenuType) -> i32 {
        match value {
            MenuType::Directory => 0,
            MenuType::Menu => 1,
            MenuType::Button => 2,
        }
    }
}

impl vstd::std_specs::convert::FromSpecImpl<MenuType> for i32 {
    open spec fn obeys_from_spec() -> bool {
        true
    }

    open spec fn from_spec(v: MenuType) -> i32 {
        v.code()
    }
}

/// Kind of an audited operation.
#[derive(Debug, Clone, Copy, PartialEq, Eq, Structural)]
pub enum BusinessType {
    /// Other.
    Other,
    /// Insert.
    Insert,
    /// Update.
    Update,
    /// Delete.
    Delete,
    /// Grant.
    Grant,
    /// Export.
    Export,
    /// Import.
    Import,
    /// Forced logout.
    Force,
    /// Code generation.
    GenCode,
    /// Data cleaning.
    Clean,
}

impl BusinessType {
    /// The code of a variant.
    pub open spec fn code(self) -> i32 {
        match self {
            BusinessType::Other => 0,
            BusinessType::Insert => 1,
            BusinessType::Update => 2,
            BusinessType::Delete => 3,
            BusinessType::Grant => 4,
            BusinessType::Export => 5,
            BusinessType::Import => 6,
            BusinessType::Force => 7,
            BusinessType::GenCode => 8,
            BusinessType::Clean => 9,
        }
    }

    /// The variant of a code; Other for an unknown one.
    pub open spec fn of_code(value: i32) -> BusinessType {
        if value == 0 {
            BusinessType::Other
        } else if value == 1 {
            BusinessType::Insert
        } else if value == 2 {
            BusinessType::Update
        } else if value == 3 {
            BusinessType::Delete
        } else if value == 4 {
            BusinessType::Grant
        } else if value == 5 {
            BusinessType::Export
        } else if value == 6 {
            BusinessType::Import
        } else if value == 7 {
            BusinessType::Force
        } else if value == 8 {
            BusinessType::GenCode
        } else if value == 9 {
            BusinessType::Clean
        } else {
            BusinessType::Other
        }
    }
}

impl From<i32> for BusinessType {
    fn from(value: i32) -> BusinessType {
        match value {
            0 => BusinessType::Other,
            1 => BusinessType::Insert,
            2 => BusinessType::Update,
            3 => BusinessType::Delete,
            4 => BusinessType::Grant,
            5 => BusinessType::Export,
            6 => BusinessType::Import,
            7 => BusinessType::Force,
            8 => BusinessType::GenCode,
            9 => BusinessType::Clean,
            _ => BusinessType::Other,
        }
    }
}

impl vstd::std_specs::convert::FromSpecImpl<i32> for BusinessType {
    open spec fn obeys_from_spec() -> bool {
        true
    }

    open spec fn from_spec(v: i32) -> BusinessType {
        BusinessType::of_code(v)
    }
}

impl From<BusinessType> for i32 {
    fn from(value: BusinessType) -> i32 {
        match value {
            BusinessType::Other => 0,
            BusinessType::Insert => 1,
            BusinessType::Update => 2,
            BusinessType::Delete => 3,
            BusinessType::Grant => 4,
            BusinessType::Export => 5,
            BusinessType::Import => 6,
            BusinessType::Force => 7,
            BusinessType::GenCode => 8,
            BusinessType::Clean => 9,
        }
    }
}

impl vstd::std_specs::convert::FromSpecImpl<BusinessType> for i32 {
    open spec fn obeys_from_spec() -> bool {
        true
    }

    open spec fn from_spec(v: BusinessType) -> i32 {
        v.code()
    }
}

/// Outcome of an audited operation.
#[derive(Debug, Clone, Copy, PartialEq, Eq, Structural)]
pub enum OperStatus {
    /// Succeeded.
    Success,
    /// Failed.
    Fail,
}

impl OperStatus {
    /// The code of a variant.
    pub open spec fn code(self) -> i32 {
        match self {
            OperStatus::Success => 0,
            OperStatus::Fail => 1,
        }
    }

    /// The variant of a code; Fail for an unknown one.
    pub open spec fn of_code(value: i32) -> OperStatus {
        if value == 0 {
            OperStatus::Success
        } else if value == 1 {
            OperStatus::Fail
        } else {
            OperStatus::Fail
        }
    }
}

impl From<i32> for OperStatus {
    fn from(value: i32) -> OperStatus {
        match value {
            0 => OperStatus::Success,
            1 => OperStatus::Fail,
            _ => OperStatus::Fail,
        }
    }
}

impl vstd::std_specs::convert::FromSpecImpl<i32> for OperStatus {
    open spec fn obeys_from_spec() -> bool {
        true
    }

    open spec fn from_spec(v: i32) -> OperStatus {
        OperStatus::of_code(v)
    }
}

impl From<OperStatus> for i32 {
    fn from(value: OperStatus) -> i32 {
        match value {
            OperStatus::Success => 0,
            OperStatus::Fail => 1,
        }
    }
}

impl vstd::std_specs::convert::FromSpecImpl<OperStatus> for i32 {
    open spec fn obeys_from_spec() -> bool {
        true
    }

    open spec fn from_spec(v: OperStatus) -> i32 {
        v.code()
    }
}

/// Outcome of a login.
#[derive(Debug, Clone, Copy, PartialEq, Eq, Structural)]
pub enum LoginStatus {
    /// Succeeded.
    Success,
    /// Failed.
    Fail,
}

impl LoginStatus {
    /// The code of a variant.
    pub open spec fn code(self) -> i32 {
        match self {
            LoginStatus::Success => 0,
            LoginStatus::Fail => 1,
        }
    }

    /// The variant of a code; Fail for an unknown one.
    pub open spec fn of_code(value: i32) -> LoginStatus {
        if value == 0 {
            LoginStatus::Success
        } else if value == 1 {
            LoginStatus::Fail
        } else {
            LoginStatus::Fail
        }
    }
}

impl From<i32> for LoginStatus {
    fn from(value: i32) -> LoginStatus {
        match value {
            0 => LoginStatus::Success,
            1 => LoginStatus::Fail,
            _ => LoginStatus::Fail,
        }
    }
}

impl vstd::std_specs::convert::FromSpecImpl<i32> for LoginStatus {
    open spec fn obeys_from_spec() -> bool {
        true
    }

    open spec fn from_spec(v: i32) -> LoginStatus {
        LoginStatus::of_code(v)
    }
}

impl From<LoginStatus> for i32 {
    fn from(value: LoginStatus) -> i32 {
        match value {
            LoginStatus::Success => 0,
            LoginStatus::Fail => 1,
        }
    }
}

impl vstd::std_specs::convert::FromSpecImpl<LoginStatus> for i32 {
    open spec fn obeys_from_spec() -> bool {
        true
    }

    open spec fn from_spec(v: LoginStatus) -> i32 {
        v.code()
    }
}

/// Which rows a role may see.
#[derive(Debug, Clone, Copy, PartialEq, Eq, Structural)]
pub enum DataScope {
    /// Every row.
    All,
    /// Rows of the departments listed on the role.
    Custom,
    /// Rows of the user's department.
    Dept,
    /// Rows of the user's department and the departments under it.
    DeptAndChild,
    /// The user's own rows.
    SelfOnly,
}

impl DataScope {
    /// The code of a variant.
    pub open spec fn code(self) -> i32 {
        match self {
            DataScope::All => 1,
            DataScope::Custom => 2,
            DataScope::Dept => 3,
            DataScope::DeptAndChild => 4,
            DataScope::SelfOnly => 5,
        }
    }

    /// The variant of a code; SelfOnly for an unknown one.
    pub open spec fn of_code(value: i32) -> DataScope {
        if value == 1 {
            DataScope::All
        } else if value == 2 {
            DataScope::Custom
        } else if value == 3 {
            DataScope::Dept
        } else if value == 4 {
            DataScope::DeptAndChild
        } else if value == 5 {
            DataScope::SelfOnly
        } else {
            DataScope::SelfOnly
        }
    }
}

impl From<i32> for DataScope {
    fn from(value: i32) -> DataScope {
        match value {
            1 => DataScope::All,
            2 => DataScope::Custom,
            3 => DataScope::Dept,
            4 => DataScope::DeptAndChild,
            5 => DataScope::SelfOnly,
            _ => DataScope::SelfOnly,
        }
    }
}

impl vstd::std_specs::convert::FromSpecImpl<i32> for DataScope {
    open spec fn obeys_from_spec() -> bool {
        true
    }

    open spec fn from_spec(v: i32) -> DataScope {
        DataScope::of_code(v)
    }
}

impl From<DataScope> for i32 {
    fn from(value: DataScope) -> i32 {
        match value {
            DataScope::All => 1,
            DataScope::Custom => 2,
            DataScope::Dept => 3,
            DataScope::DeptAndChild => 4,
            DataScope::SelfOnly => 5,
        }
    }
}

impl vstd::std_specs::convert::FromSpecImpl<DataScope> for i32 {
    open spec fn obeys_from_spec() -> bool {
        true
    }

    open spec fn from_spec(v: DataScope) -> i32 {
        v.code()
    }
}

/// Status of a resident.
#[derive(Debug, Clone, Copy, PartialEq, Eq, Structural)]
pub enum ElderStatus {
    /// Disabled.
    Disabled,
    /// Enabled.
    Enabled,
    /// On leave.
    Leave,
    /// Checking out.
    Leaving,
    /// Checked in.
    CheckedIn,
    /// Checked out.
    CheckedOut,
}

impl ElderStatus {
    /// The code of a variant.
    pub open spec fn code(self) -> i32 {
        match self {
            ElderStatus::Disabled => 0,
            ElderStatus::Enabled => 1,
            ElderStatus::Leave => 2,
            ElderStatus::Leaving => 3,
            ElderStatus::CheckedIn => 4,
            ElderStatus::CheckedOut => 5,
        }
    }

    /// The variant of a code; Disabled for an unknown one.
    pub open spec fn of_code(value: i32) -> ElderStatus {
        if value == 0 {
            ElderStatus::Disabled
        } else if value == 1 {
            ElderStatus::Enabled
        } else if value == 2 {
            ElderStatus::Leave
        } else if value == 3 {
            ElderStatus::Leaving
        } else if value == 4 {
            ElderStatus::CheckedIn
        } else if value == 5 {
            ElderStatus::CheckedOut
        } else {
            ElderStatus::Disabled
        }
    }
}

impl From<i32> for ElderStatus {
    fn from(value: i32) -> ElderStatus {
        match value {
            0 => ElderStatus::Disabled,
            1 => ElderStatus::Enabled,
            2 => ElderStatus::Leave,
            3 => ElderStatus::Leaving,
            4 => ElderStatus::CheckedIn,
            5 => ElderStatus::CheckedOut,
            _ => ElderStatus::Disabled,
        }
    }
}

impl vstd::std_specs::convert::FromSpecImpl<i32> for ElderStatus {
    open spec fn obeys_from_spec() -> bool {
        true
    }

    open spec fn from_spec(v: i32) -> ElderStatus {
        ElderStatus::of_code(v)
    }
}

impl From<ElderStatus> for i32 {
    fn from(value: ElderStatus) -> i32 {
        match value {
            ElderStatus::Disabled => 0,
            ElderStatus::Enabled => 1,
            ElderStatus::Leave => 2,
            ElderStatus::Leaving => 3,
            ElderStatus::CheckedIn => 4,
            ElderStatus::CheckedOut => 5,
        }
    }
}

impl vstd::std_specs::convert::FromSpecImpl<ElderStatus> for i32 {
    open spec fn obeys_from_spec() -> bool {
        true
    }

    open spec fn from_spec(v: ElderStatus) -> i32 {
        v.code()
    }
}

/// Gender.
#[derive(Debug, Clone, Copy, PartialEq, Eq, Structural)]
pub enum Gender {
    /// Female.
    Female,
    /// Male.
    Male,
}

impl Gender {
    /// The code of a variant.
    pub open spec fn code(self) -> i32 {
        match self {
            Gender::Female => 0,
            Gender::Male => 1,
        }
    }

    /// The variant of a code; Female for an unknown one.
    pub open spec fn of_code(value: i32) -> Gender {
        if value == 0 {
            Gender::Female
        } else if value == 1 {
            Gender::Male
        } else {
            Gender::Female
        }
    }
}

impl From<i32> for Gender {
    fn from(value: i32) -> Gender {
        match value {
            0 => Gender::Female,
            1 => Gender::Male,
            _ => Gender::Female,
        }
    }
}

impl vstd::std_specs::convert::FromSpecImpl<i32> for Gender {
    open spec fn obeys_from_spec() -> bool {
        true
    }

    open spec fn from_spec(v: i32) -> Gender {
        Gender::of_code(v)
    }
}

impl From<Gender> for i32 {
    fn from(value: Gender) -> i32 {
        match value {
            Gender::Female => 0,
            Gender::Male => 1,
        }
    }
}

impl vstd::std_specs::convert::FromSpecImpl<Gender> for i32 {
    open spec fn obeys_from_spec() -> bool {
        true
    }

    open spec fn from_spec(v: Gender) -> i32 {
        v.code()
    }
}

} // verus!
