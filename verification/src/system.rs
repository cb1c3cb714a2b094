//! The employee registry: one institution, and one record per employee,
//! changed only by the institution's administrator.

use vstd::prelude::*;
use crate::address::Address;
use crate::contract_states::{Employee, EmployeeRank, EmployeeStatus, Institution};
use crate::errors::{follows, yields, ContractError};
use crate::system_model::{
    authorized, found, founded, hired, informed, promoted, revised, EmployeeModel, InstitutionModel,
    RegistryModel,
};
use crate::table::Table;

verus! {

/// The model of an institution record that may be absent.
pub open spec fn institution_model(institution: Option<&Institution>) -> Option<InstitutionModel> {
    match institution {
        Some(i) => Some(i@),
        None => None,
    }
}

/// The model of an employee record that may be absent.
pub open spec fn employee_model(employee: Option<&Employee>) -> Option<EmployeeModel> {
    match employee {
        Some(e) => Some(e@),
        None => None,
    }
}

/// The model of a name that may be absent.
pub open spec fn name_model(name: Option<String>) -> Option<Seq<char>> {
    match name {
        Some(n) => Some(n@),
        None => None,
    }
}

/// The model of a salary that may be absent.
pub open spec fn salary_model(salary: Option<i128>) -> Option<int> {
    match salary {
        Some(s) => Some(s as int),
        None => None,
    }
}

/// The institution that `initialize` records, with no employees. Fails with
/// `AlreadyInitialized` where there is one already.
pub fn found_institution(
    existing: Option<&Institution>,
    admin: Address,
    name: String,
    token_contract: Address,
) -> (r: Result<Institution, ContractError>)
    ensures
        yields(r, founded(institution_model(existing), admin@, name@, token_contract@)),
{
    match existing {
        Some(_) => Err(ContractError::AlreadyInitialized),
        None => Ok(Institution { admin, name, token_contract, total_employees: 0 }),
    }
}

/// The institution, for `actor` to change its registry. Fails with
/// `NotInitialized` where there is no institution, then with `Unauthorized`
/// unless `actor` is its administrator.
pub fn authorize<'a>(institution: Option<&'a Institution>, actor: &Address) -> (r: Result<
    &'a Institution,
    ContractError,
>)
    ensures
        yields(r, authorized(institution_model(institution), actor@)),
        r matches Ok(i) ==> institution == Some(i),
{
    match institution {
        None => Err(ContractError::NotInitialized),
        Some(i) => if i.admin.same(actor) {
            Ok(i)
        } else {
            Err(ContractError::Unauthorized)
        },
    }
}

/// A copy of the institution. Fails with `NotInitialized` where there is
/// none.
pub fn institution_info(institution: Option<&Institution>) -> (r: Result<Institution, ContractError>)
    ensures
        yields(r, informed(institution_model(institution))),
{
    match institution {
        None => Err(ContractError::NotInitialized),
        Some(i) => Ok(i.clone()),
    }
}

/// The record that `add_employee` creates, active from the start. Fails
/// with `InvalidSalary` unless the salary is positive, then with
/// `InvalidName` if the name is empty, then with `EmployeeAlreadyExists` if
/// the holder has a record.
pub fn hire(existing: Option<&Employee>, name: String, salary: i128, rank: EmployeeRank) -> (r: Result<
    Employee,
    ContractError,
>)
    ensures
        yields(r, hired(employee_model(existing), name@, salary as int, rank)),
{
    if salary <= 0 {
        Err(ContractError::InvalidSalary)
    } else if name.as_str().is_empty() {
        Err(ContractError::InvalidName)
    } else if existing.is_some() {
        Err(ContractError::EmployeeAlreadyExists)
    } else {
        Ok(Employee { name, salary, rank, status: EmployeeStatus::Active })
    }
}

/// A copy of the record that is there. Fails with `EmployeeNotFound` where
/// there is none.
pub fn find(existing: Option<&Employee>) -> (r: Result<Employee, ContractError>)
    ensures
        yields(r, found(employee_model(existing))),
{
    match existing {
        None => Err(ContractError::EmployeeNotFound),
        Some(e) => Ok(e.clone()),
    }
}

/// The record after `update_employee`: each of name and salary that is
/// given replaces the stored one, each that is not given stays. Fails with
/// `EmployeeNotFound` where there is no record.
pub fn revise(existing: Option<&Employee>, new_name: Option<String>, new_salary: Option<i128>) -> (r: Result<
    Employee,
    ContractError,
>)
    ensures
        yields(r, revised(employee_model(existing), name_model(new_name), salary_model(new_salary))),
{
    match existing {
        None => Err(ContractError::EmployeeNotFound),
        Some(e) => {
            let name = match new_name {
                Some(n) => n,
                None => e.name.clone(),
            };
            let salary = match new_salary {
                Some(s) => s,
                None => e.salary,
            };
            Ok(Employee { name, salary, rank: e.rank, status: e.status })
        },
    }
}

/// The record after `promote_employee`: the new rank and the new salary.
/// Fails with `EmployeeNotFound` where there is no record, then with
/// `SameRank` if `new_rank` is the rank it has. Any other rank is accepted,
/// a lower one too.
pub fn promote(existing: Option<&Employee>, new_rank: EmployeeRank, new_salary: i128) -> (r: Result<
    Employee,
    ContractError,
>)
    ensures
        yields(r, promoted(employee_model(existing), new_rank, new_salary as int)),
{
    match existing {
        None => Err(ContractError::EmployeeNotFound),
        Some(e) => if e.rank == new_rank {
            Err(ContractError::SameRank)
        } else {
            Ok(Employee { name: e.name.clone(), salary: new_salary, rank: new_rank, status: e.status })
        },
    }
}

/// An employee registry.
pub struct EmployeeManagementContract {
    institution: Option<Institution>,
    employees: Table<Address, Employee>,
}

impl View for EmployeeManagementContract {
    type V = RegistryModel;

    closed spec fn view(&self) -> RegistryModel {
        RegistryModel {
            institution: match self.institution {
                Some(i) => Some(i@),
                None => None,
            },
            employees: self.employees@.map_values(|e: Employee| e@),
        }
    }
}

impl EmployeeManagementContract {
    /// The store is in order and the state is one a registry can reach.
    pub closed spec fn well_formed(&self) -> bool {
        &&& self.employees.well_formed()
        &&& self@.consistent()
    }

    /// In every registry the counter is the number of records, and every
    /// record is active.
    pub proof fn lemma_consistent(&self)
        requires
            self.well_formed(),
        ensures
            self@.consistent(),
            self@.institution matches Some(i) ==> 0 <= i.total_employees <= u32::MAX,
    {
    }

    /// A registry on which `initialize` has not run.
    pub fn new() -> (r: EmployeeManagementContract)
        ensures
            r.well_formed(),
            r@ == RegistryModel::empty(),
    {
        let r = EmployeeManagementContract { institution: None, employees: Table::new() };
        proof {
            assert(r@.employees =~= Map::<Seq<char>, EmployeeModel>::empty());
        }
        r
    }

    /// The stored record of `employee_id`, if there is one.
    fn read_employee(&self, employee_id: &Address) -> (r: Option<&Employee>)
        requires
            self.employees.well_formed(),
        ensures
            employee_model(r) == self@.employee(employee_id@),
    {
        self.employees.get(employee_id)
    }

    /// Stores `record` as the record of `employee_id`.
    fn write_employee(&mut self, employee_id: &Address, record: Employee)
        requires
            old(self).employees.well_formed(),
        ensures
            final(self).employees.well_formed(),
            final(self)@ == old(self)@.with_employee(employee_id@, record@),
    {
        self.employees.insert(employee_id.clone(), record);
        proof {
            assert(self@.employees =~= old(self)@.employees.insert(employee_id@, record@));
        }
    }

    /// Deletes the record of `employee_id`, if there is one.
    fn delete_employee(&mut self, employee_id: &Address)
        requires
            old(self).employees.well_formed(),
        ensures
            final(self).employees.well_formed(),
            final(self)@ == old(self)@.without_employee(employee_id@),
    {
        let _ = self.employees.remove(employee_id);
        proof {
            assert(self@.employees =~= old(self)@.employees.remove(employee_id@));
        }
    }

    /// Moves the institution's counter one up or one down.
    fn change_count(&mut self, up: bool)
        requires
            old(self).employees.well_formed(),
            old(self)@.institution matches Some(i) && (if up {
                i.total_employees < u32::MAX
            } else {
                i.total_employees > 0
            }),
        ensures
            final(self).employees.well_formed(),
            final(self)@ == old(self)@.with_count_change(
                if up {
                    1
                } else {
                    -1
                },
            ),
    {
        let held = self.institution.take();
        match held {
            Some(i) => {
                self.institution = Some(
                    if up {
                        i.with_one_more()
                    } else {
                        i.with_one_less()
                    },
                );
            },
            None => {},
        }
    }

    /// Records the institution, administered by `admin`, with no employees.
    /// Fails with `AlreadyInitialized` where there is one already.
    pub fn initialize(&mut self, admin: Address, name: String, token_contract: Address) -> (r: Result<
        (),
        ContractError,
    >)
        requires
            old(self).well_formed(),
        ensures
            final(self).well_formed(),
            follows(
                r,
                old(self)@,
                final(self)@,
                old(self)@.initialize(admin@, name@, token_contract@),
            ),
    {
        match found_institution(self.institution.as_ref(), admin, name, token_contract) {
            Err(e) => Err(e),
            Ok(i) => {
                self.institution = Some(i);
                Ok(())
            },
        }
    }

    /// The institution. Fails with `NotInitialized` where there is none.
    pub fn get_institution_info(&self) -> (r: Result<Institution, ContractError>)
        requires
            self.well_formed(),
        ensures
            yields(r, self@.get_institution_info()),
    {
        institution_info(self.institution.as_ref())
    }

    /// `admin` gives `employee_id` a record with the given name, salary and
    /// rank, active from the start, and the counter goes up by one. Fails
    /// with `NotInitialized`, `Unauthorized`, `InvalidSalary`, `InvalidName`
    /// or `EmployeeAlreadyExists`, whichever comes first in that order. The
    /// new count must fit the counter.
    pub fn add_employee(
        &mut self,
        admin: &Address,
        employee_id: &Address,
        name: String,
        salary: i128,
        rank: EmployeeRank,
    ) -> (r: Result<(), ContractError>)
        requires
            old(self).well_formed(),
            old(self)@.employees.dom().len() < u32::MAX,
        ensures
            final(self).well_formed(),
            follows(
                r,
                old(self)@,
                final(self)@,
                old(self)@.add_employee(admin@, employee_id@, name@, salary as int, rank),
            ),
    {
        match authorize(self.institution.as_ref(), admin) {
            Err(e) => Err(e),
            Ok(_) => match hire(self.read_employee(employee_id), name, salary, rank) {
                Err(e) => Err(e),
                Ok(record) => {
                    self.write_employee(employee_id, record);
                    self.change_count(true);
                    Ok(())
                },
            },
        }
    }

    /// A copy of the record of `employee_id`. Fails with `EmployeeNotFound`
    /// where there is none.
    pub fn get_employee(&self, employee_id: &Address) -> (r: Result<Employee, ContractError>)
        requires
            self.well_formed(),
        ensures
            yields(r, self@.get_employee(employee_id@)),
    {
        find(self.read_employee(employee_id))
    }

    /// `admin` deletes the record of `employee_id`, and the counter goes
    /// down by one. Fails with `NotInitialized`, `Unauthorized` or
    /// `EmployeeNotFound`, whichever comes first in that order.
    pub fn remove_employee(&mut self, admin: &Address, employee_id: &Address) -> (r: Result<(), ContractError>)
        requires
            old(self).well_formed(),
        ensures
            final(self).well_formed(),
            follows(r, old(self)@, final(self)@, old(self)@.remove_employee(admin@, employee_id@)),
    {
        match authorize(self.institution.as_ref(), admin) {
            Err(e) => Err(e),
            Ok(_) => if self.employees.contains_key(employee_id) {
                self.delete_employee(employee_id);
                self.change_count(false);
                Ok(())
            } else {
                Err(ContractError::EmployeeNotFound)
            },
        }
    }

    /// `admin` replaces the name, the salary, both or neither of
    /// `employee_id`'s record: a field that is not given stays as it is.
    /// Fails with `NotInitialized`, `Unauthorized` or `EmployeeNotFound`,
    /// whichever comes first in that order.
    pub fn update_employee(
        &mut self,
        admin: &Address,
        employee_id: &Address,
        new_name: Option<String>,
        new_salary: Option<i128>,
    ) -> (r: Result<(), ContractError>)
        requires
            old(self).well_formed(),
        ensures
            final(self).well_formed(),
            follows(
                r,
                old(self)@,
                final(self)@,
                old(self)@.update_employee(
                    admin@,
                    employee_id@,
                    name_model(new_name),
                    salary_model(new_salary),
                ),
            ),
    {
        match authorize(self.institution.as_ref(), admin) {
            Err(e) => Err(e),
            Ok(_) => match revise(self.read_employee(employee_id), new_name, new_salary) {
                Err(e) => Err(e),
                Ok(record) => {
                    self.write_employee(employee_id, record);
                    Ok(())
                },
            },
        }
    }

    /// `admin` gives `employee_id` the rank `new_rank` and the salary
    /// `new_salary`. Fails with `NotInitialized`, `Unauthorized`,
    /// `EmployeeNotFound` or, where `new_rank` is the rank the employee has,
    /// `SameRank`, whichever comes first in that order.
    pub fn promote_employee(
        &mut self,
        admin: &Address,
        employee_id: &Address,
        new_rank: EmployeeRank,
        new_salary: i128,
    ) -> (r: Result<(), ContractError>)
        requires
            old(self).well_formed(),
        ensures
            final(self).well_formed(),
            follows(
                r,
                old(self)@,
                final(self)@,
                old(self)@.promote_employee(admin@, employee_id@, new_rank, new_salary as int),
            ),
    {
        match authorize(self.institution.as_ref(), admin) {
            Err(e) => Err(e),
            Ok(_) => match promote(self.read_employee(employee_id), new_rank, new_salary) {
                Err(e) => Err(e),
                Ok(record) => {
                    self.write_employee(employee_id, record);
                    Ok(())
                },
            },
        }
    }
}

} // verus!
