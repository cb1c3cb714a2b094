//! The employee registry as mathematics: its state, the effect of each
//! operation on it, and the laws that hold of every reachable state.

use vstd::prelude::*;
use crate::contract_states::{EmployeeRank, EmployeeStatus};
use crate::errors::ContractError;
use crate::token_model::Holder;

verus! {

/// The institution that a registry serves.
pub struct InstitutionModel {
    /// The one identity that may change the registry.
    pub admin: Holder,
    pub name: Seq<char>,
    /// The token ledger through which employees are paid.
    pub token_contract: Holder,
    /// How many employee records there are.
    pub total_employees: int,
}

/// One employee record.
pub struct EmployeeModel {
    pub name: Seq<char>,
    pub salary: int,
    pub rank: EmployeeRank,
    pub status: EmployeeStatus,
}

/// The institution that `initialize` records: `AlreadyInitialized` where
/// there is one already.
pub open spec fn founded(
    existing: Option<InstitutionModel>,
    admin: Holder,
    name: Seq<char>,
    token_contract: Holder,
) -> Result<InstitutionModel, ContractError> {
    match existing {
        Some(_) => Err(ContractError::AlreadyInitialized),
        None => Ok(InstitutionModel { admin, name, token_contract, total_employees: 0 }),
    }
}

/// Whether `actor` may change the registry: there must be an institution,
/// and `actor` must be its administrator. Gives the institution back.
pub open spec fn authorized(institution: Option<InstitutionModel>, actor: Holder) -> Result<
    InstitutionModel,
    ContractError,
> {
    match institution {
        None => Err(ContractError::NotInitialized),
        Some(i) => if i.admin != actor {
            Err(ContractError::Unauthorized)
        } else {
            Ok(i)
        },
    }
}

/// The institution that is there, where there is one.
pub open spec fn informed(institution: Option<InstitutionModel>) -> Result<InstitutionModel, ContractError> {
    match institution {
        None => Err(ContractError::NotInitialized),
        Some(i) => Ok(i),
    }
}

/// The record that `add_employee` creates. The salary must be positive, the
/// name must not be empty, and the holder must have no record yet; the first
/// of these that fails is the error.
pub open spec fn hired(existing: Option<EmployeeModel>, name: Seq<char>, salary: int, rank: EmployeeRank) -> Result<
    EmployeeModel,
    ContractError,
> {
    if salary <= 0 {
        Err(ContractError::InvalidSalary)
    } else if name.len() == 0 {
        Err(ContractError::InvalidName)
    } else if existing is Some {
        Err(ContractError::EmployeeAlreadyExists)
    } else {
        Ok(EmployeeModel { name, salary, rank, status: EmployeeStatus::Active })
    }
}

/// The record that is there, where there is one.
pub open spec fn found(existing: Option<EmployeeModel>) -> Result<EmployeeModel, ContractError> {
    match existing {
        None => Err(ContractError::EmployeeNotFound),
        Some(e) => Ok(e),
    }
}

/// The record after `update_employee`: each field that is given replaces
/// the stored one, each that is not given stays.
pub open spec fn revised(
    existing: Option<EmployeeModel>,
    new_name: Option<Seq<char>>,
    new_salary: Option<int>,
) -> Result<EmployeeModel, ContractError> {
    match existing {
        None => Err(ContractError::EmployeeNotFound),
        Some(e) => Ok(
            EmployeeModel {
                name: match new_name {
                    Some(n) => n,
                    None => e.name,
                },
                salary: match new_salary {
                    Some(s) => s,
                    None => e.salary,
                },
                rank: e.rank,
                status: e.status,
            },
        ),
    }
}

/// The record after `promote_employee`: the new rank, which must differ
/// from the stored one in either direction, and the new salary.
pub open spec fn promoted(existing: Option<EmployeeModel>, new_rank: EmployeeRank, new_salary: int) -> Result<
    EmployeeModel,
    ContractError,
> {
    match existing {
        None => Err(ContractError::EmployeeNotFound),
        Some(e) => if e.rank == new_rank {
            Err(ContractError::SameRank)
        } else {
            Ok(EmployeeModel { name: e.name, salary: new_salary, rank: new_rank, status: e.status })
        },
    }
}

/// The state of an employee registry.
pub struct RegistryModel {
    /// `None` until `initialize` has run.
    pub institution: Option<InstitutionModel>,
    /// At most one record per holder.
    pub employees: Map<Holder, EmployeeModel>,
}

/// One request to change a registry.
#[allow(inconsistent_fields)]
pub enum RegistryOperation {
    Initialize { admin: Holder, name: Seq<char>, token_contract: Holder },
    AddEmployee { admin: Holder, employee_id: Holder, name: Seq<char>, salary: int, rank: EmployeeRank },
    RemoveEmployee { admin: Holder, employee_id: Holder },
    UpdateEmployee {
        admin: Holder,
        employee_id: Holder,
        new_name: Option<Seq<char>>,
        new_salary: Option<int>,
    },
    PromoteEmployee { admin: Holder, employee_id: Holder, new_rank: EmployeeRank, new_salary: int },
}

impl RegistryModel {
    /// A registry on which `initialize` has not run.
    pub open spec fn empty() -> RegistryModel {
        RegistryModel { institution: None, employees: Map::empty() }
    }

    /// The record of `employee_id`, if there is one.
    pub open spec fn employee(self, employee_id: Holder) -> Option<EmployeeModel> {
        if self.employees.contains_key(employee_id) {
            Some(self.employees[employee_id])
        } else {
            None
        }
    }

    /// This state with the employee counter changed by `delta`.
    pub open spec fn with_count_change(self, delta: int) -> RegistryModel {
        match self.institution {
            Some(i) => RegistryModel {
                institution: Some(InstitutionModel { total_employees: i.total_employees + delta, ..i }),
                ..self
            },
            None => self,
        }
    }

    /// This state with `record` as the record of `employee_id`.
    pub open spec fn with_employee(self, employee_id: Holder, record: EmployeeModel) -> RegistryModel {
        RegistryModel { employees: self.employees.insert(employee_id, record), ..self }
    }

    /// This state without a record for `employee_id`.
    pub open spec fn without_employee(self, employee_id: Holder) -> RegistryModel {
        RegistryModel { employees: self.employees.remove(employee_id), ..self }
    }

    /// Records the institution, with no employees. Runs once.
    pub open spec fn initialize(self, admin: Holder, name: Seq<char>, token_contract: Holder) -> Result<
        RegistryModel,
        ContractError,
    > {
        match founded(self.institution, admin, name, token_contract) {
            Err(e) => Err(e),
            Ok(i) => Ok(RegistryModel { institution: Some(i), ..self }),
        }
    }

    /// `admin` gives `employee_id` a record, active from the start, and the
    /// counter goes up by one.
    pub open spec fn add_employee(
        self,
        admin: Holder,
        employee_id: Holder,
        name: Seq<char>,
        salary: int,
        rank: EmployeeRank,
    ) -> Result<RegistryModel, ContractError> {
        match authorized(self.institution, admin) {
            Err(e) => Err(e),
            Ok(_) => match hired(self.employee(employee_id), name, salary, rank) {
                Err(e) => Err(e),
                Ok(record) => Ok(self.with_employee(employee_id, record).with_count_change(1)),
            },
        }
    }

    /// The record of `employee_id`.
    pub open spec fn get_employee(self, employee_id: Holder) -> Result<EmployeeModel, ContractError> {
        found(self.employee(employee_id))
    }

    /// `admin` deletes the record of `employee_id`, and the counter goes
    /// down by one.
    pub open spec fn remove_employee(self, admin: Holder, employee_id: Holder) -> Result<
        RegistryModel,
        ContractError,
    > {
        match authorized(self.institution, admin) {
            Err(e) => Err(e),
            Ok(_) => match found(self.employee(employee_id)) {
                Err(e) => Err(e),
                Ok(_) => Ok(self.without_employee(employee_id).with_count_change(-1)),
            },
        }
    }

    /// `admin` replaces the name, the salary, both or neither of
    /// `employee_id`'s record.
    pub open spec fn update_employee(
        self,
        admin: Holder,
        employee_id: Holder,
        new_name: Option<Seq<char>>,
        new_salary: Option<int>,
    ) -> Result<RegistryModel, ContractError> {
        match authorized(self.institution, admin) {
            Err(e) => Err(e),
            Ok(_) => match revised(self.employee(employee_id), new_name, new_salary) {
                Err(e) => Err(e),
                Ok(record) => Ok(self.with_employee(employee_id, record)),
            },
        }
    }

    /// `admin` gives `employee_id` another rank and a new salary.
    pub open spec fn promote_employee(
        self,
        admin: Holder,
        employee_id: Holder,
        new_rank: EmployeeRank,
        new_salary: int,
    ) -> Result<RegistryModel, ContractError> {
        match authorized(self.institution, admin) {
            Err(e) => Err(e),
            Ok(_) => match promoted(self.employee(employee_id), new_rank, new_salary) {
                Err(e) => Err(e),
                Ok(record) => Ok(self.with_employee(employee_id, record)),
            },
        }
    }

    /// The institution.
    pub open spec fn get_institution_info(self) -> Result<InstitutionModel, ContractError> {
        informed(self.institution)
    }

    /// What `op` asks for: the new state, or why it is rejected.
    pub open spec fn request(self, op: RegistryOperation) -> Result<RegistryModel, ContractError> {
        match op {
            RegistryOperation::Initialize { admin, name, token_contract } => self.initialize(
                admin,
                name,
                token_contract,
            ),
            RegistryOperation::AddEmployee { admin, employee_id, name, salary, rank } => self.add_employee(
                admin,
                employee_id,
                name,
                salary,
                rank,
            ),
            RegistryOperation::RemoveEmployee { admin, employee_id } => self.remove_employee(
                admin,
                employee_id,
            ),
            RegistryOperation::UpdateEmployee { admin, employee_id, new_name, new_salary } => self.update_employee(
                admin,
                employee_id,
                new_name,
                new_salary,
            ),
            RegistryOperation::PromoteEmployee { admin, employee_id, new_rank, new_salary } => self.promote_employee(
                admin,
                employee_id,
                new_rank,
                new_salary,
            ),
        }
    }

    /// The state after `op`: a rejected request leaves it as it was.
    pub open spec fn after(self, op: RegistryOperation) -> RegistryModel {
        match self.request(op) {
            Ok(next) => next,
            Err(_) => self,
        }
    }

    /// The state after each request in `ops`, in order.
    pub open spec fn after_all(self, ops: Seq<RegistryOperation>) -> RegistryModel
        decreases ops.len(),
    {
        if ops.len() == 0 {
            self
        } else {
            self.after_all(ops.drop_last()).after(ops.last())
        }
    }

    /// What holds of every state a registry can reach: finitely many
    /// records, every one of them active, none before there is an
    /// institution, and a counter that is the number of records.
    pub open spec fn consistent(self) -> bool {
        &&& self.employees.dom().finite()
        &&& forall|h: Holder|
            self.employees.contains_key(h) ==> (#[trigger] self.employees[h]).status
                == EmployeeStatus::Active
        &&& match self.institution {
            None => self.employees.dom().len() == 0,
            Some(i) => i.total_employees == self.employees.dom().len(),
        }
    }
}

/// A registry on which nothing has run is consistent.
pub proof fn lemma_empty_consistent()
    ensures
        RegistryModel::empty().consistent(),
{
}

/// Every request, accepted or rejected, takes a consistent state to a
/// consistent state.
pub proof fn lemma_request_keeps_consistent(m: RegistryModel, op: RegistryOperation)
    requires
        m.consistent(),
    ensures
        m.after(op).consistent(),
{
}

/// After any sequence of requests to a registry that started consistent,
/// the counter is the number of records, so never below zero, and every
/// record is active.
pub proof fn lemma_counter_is_number_of_records(start: RegistryModel, ops: Seq<RegistryOperation>)
    requires
        start.consistent(),
    ensures
        start.after_all(ops).consistent(),
        start.after_all(ops).institution matches Some(i) ==> i.total_employees == start.after_all(
            ops,
        ).employees.dom().len() && i.total_employees >= 0,
    decreases ops.len(),
{
    if ops.len() > 0 {
        lemma_counter_is_number_of_records(start, ops.drop_last());
        lemma_request_keeps_consistent(start.after_all(ops.drop_last()), ops.last());
    }
}

/// After `add_employee` has succeeded, `get_employee` returns exactly the
/// submitted name, salary and rank, with status active, and the counter is
/// up by exactly one, the rest of the institution unchanged.
pub proof fn lemma_add_then_get(
    m: RegistryModel,
    admin: Holder,
    employee_id: Holder,
    name: Seq<char>,
    salary: int,
    rank: EmployeeRank,
)
    requires
        m.add_employee(admin, employee_id, name, salary, rank) is Ok,
    ensures
        ({
            let next = m.add_employee(admin, employee_id, name, salary, rank)->Ok_0;
            &&& next.get_employee(employee_id) == Ok::<EmployeeModel, ContractError>(
                EmployeeModel { name, salary, rank, status: EmployeeStatus::Active },
            )
            &&& m.institution is Some
            &&& next.institution == Some(
                InstitutionModel {
                    total_employees: m.institution->Some_0.total_employees + 1,
                    ..m.institution->Some_0
                },
            )
        }),
{
}

/// After `remove_employee` has succeeded, `get_employee` fails with
/// `EmployeeNotFound`, and the counter is down by exactly one and not below
/// zero.
pub proof fn lemma_remove_then_get(m: RegistryModel, admin: Holder, employee_id: Holder)
    requires
        m.consistent(),
        m.remove_employee(admin, employee_id) is Ok,
    ensures
        ({
            let next = m.remove_employee(admin, employee_id)->Ok_0;
            &&& next.get_employee(employee_id) == Err::<EmployeeModel, ContractError>(
                ContractError::EmployeeNotFound,
            )
            &&& m.institution is Some
            &&& next.institution is Some
            &&& next.institution->Some_0.total_employees == m.institution->Some_0.total_employees - 1
            &&& next.institution->Some_0.total_employees >= 0
        }),
{
}

/// A promotion to the rank that the employee already has fails with
/// `SameRank`, whatever the salary, and leaves the record as it was.
pub proof fn lemma_promote_same_rank(
    m: RegistryModel,
    admin: Holder,
    employee_id: Holder,
    new_rank: EmployeeRank,
    new_salary: int,
)
    requires
        authorized(m.institution, admin) is Ok,
        m.employee(employee_id) matches Some(e) && e.rank == new_rank,
    ensures
        m.promote_employee(admin, employee_id, new_rank, new_salary) == Err::<RegistryModel, ContractError>(
            ContractError::SameRank,
        ),
        m.after(
            RegistryOperation::PromoteEmployee { admin, employee_id, new_rank, new_salary },
        ).employee(employee_id) == m.employee(employee_id),
{
}

/// A promotion to any other rank, higher or lower, is accepted and sets
/// rank and salary.
pub proof fn lemma_promote_other_rank(
    m: RegistryModel,
    admin: Holder,
    employee_id: Holder,
    new_rank: EmployeeRank,
    new_salary: int,
)
    requires
        authorized(m.institution, admin) is Ok,
        m.employee(employee_id) matches Some(e) && e.rank != new_rank,
    ensures
        m.promote_employee(admin, employee_id, new_rank, new_salary) matches Ok(next) && next.employee(
            employee_id,
        ) == Some(
            EmployeeModel {
                rank: new_rank,
                salary: new_salary,
                ..m.employee(employee_id)->Some_0
            },
        ),
{
}

/// `initialize` runs once: after it has succeeded, a second call fails with
/// `AlreadyInitialized`, whatever its arguments, and the institution is the
/// one that the first call's arguments describe.
pub proof fn lemma_initialize_once(
    m: RegistryModel,
    admin: Holder,
    name: Seq<char>,
    token_contract: Holder,
    admin2: Holder,
    name2: Seq<char>,
    token_contract2: Holder,
)
    requires
        m.initialize(admin, name, token_contract) is Ok,
    ensures
        ({
            let first = m.initialize(admin, name, token_contract)->Ok_0;
            let again = RegistryOperation::Initialize {
                admin: admin2,
                name: name2,
                token_contract: token_contract2,
            };
            &&& first.initialize(admin2, name2, token_contract2) == Err::<RegistryModel, ContractError>(
                ContractError::AlreadyInitialized,
            )
            &&& first.after(again).get_institution_info() == Ok::<InstitutionModel, ContractError>(
                InstitutionModel { admin, name, token_contract, total_employees: 0 },
            )
        }),
{
}

/// An accepted `update_employee` replaces exactly what is given: a name or
/// a salary that is not given stays as it was, and so do rank, status and
/// the counter.
pub proof fn lemma_update_replaces_only_what_is_given(
    m: RegistryModel,
    admin: Holder,
    employee_id: Holder,
    new_name: Option<Seq<char>>,
    new_salary: Option<int>,
)
    requires
        m.update_employee(admin, employee_id, new_name, new_salary) is Ok,
    ensures
        ({
            let next = m.update_employee(admin, employee_id, new_name, new_salary)->Ok_0;
            &&& m.employee(employee_id) is Some
            &&& next.employee(employee_id) is Some
            &&& next.employee(employee_id)->Some_0.name == (if new_name is Some {
                new_name->Some_0
            } else {
                m.employee(employee_id)->Some_0.name
            })
            &&& next.employee(employee_id)->Some_0.salary == (if new_salary is Some {
                new_salary->Some_0
            } else {
                m.employee(employee_id)->Some_0.salary
            })
            &&& next.employee(employee_id)->Some_0.rank == m.employee(employee_id)->Some_0.rank
            &&& next.employee(employee_id)->Some_0.status == m.employee(employee_id)->Some_0.status
            &&& next.institution == m.institution
        }),
{
}

/// No request touches the record of another holder than the one it names.
pub proof fn lemma_other_records_untouched(m: RegistryModel, op: RegistryOperation, other: Holder)
    requires
        match op {
            RegistryOperation::Initialize { .. } => true,
            RegistryOperation::AddEmployee { employee_id, .. } => employee_id != other,
            RegistryOperation::RemoveEmployee { employee_id, .. } => employee_id != other,
            RegistryOperation::UpdateEmployee { employee_id, .. } => employee_id != other,
            RegistryOperation::PromoteEmployee { employee_id, .. } => employee_id != other,
        },
    ensures
        m.after(op).employee(other) == m.employee(other),
{
}

} // verus!
