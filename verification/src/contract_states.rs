//! The records that the employee registry keeps.

use vstd::prelude::*;
use crate::address::Address;
use crate::system_model::{EmployeeModel, InstitutionModel};

verus! {

/// An employee's seniority. The ranks are not ordered for the registry's
/// purposes: a promotion is any change of rank.
#[derive(Clone, Copy, Debug, PartialEq, Eq, Structural)]
pub enum EmployeeRank {
    Junior,
    Mid,
    Senior,
    Lead,
}

/// Where an employee stands. The registry's operations create active
/// employees and never change the status.
#[derive(Clone, Copy, Debug, PartialEq, Eq, Structural)]
pub enum EmployeeStatus {
    Active,
    Inactive,
    Terminated,
}

/// One employee record.
#[derive(Debug, PartialEq, Eq)]
pub struct Employee {
    pub name: String,
    pub salary: i128,
    pub rank: EmployeeRank,
    pub status: EmployeeStatus,
}

impl View for Employee {
    type V = EmployeeModel;

    open spec fn view(&self) -> EmployeeModel {
        EmployeeModel {
            name: self.name@,
            salary: self.salary as int,
            rank: self.rank,
            status: self.status,
        }
    }
}

impl Clone for Employee {
    /// A second copy of this record.
    fn clone(&self) -> (r: Employee)
        ensures
            r == *self,
    {
        Employee { name: self.name.clone(), salary: self.salary, rank: self.rank, status: self.status }
    }
}

/// The institution that a registry serves.
#[derive(Debug, PartialEq, Eq)]
pub struct Institution {
    /// The one identity that may change the registry.
    pub admin: Address,
    pub name: String,
    /// The token ledger through which employees are paid.
    pub token_contract: Address,
    /// How many employee records there are.
    pub total_employees: u32,
}

impl View for Institution {
    type V = InstitutionModel;

    open spec fn view(&self) -> InstitutionModel {
        InstitutionModel {
            admin: self.admin@,
            name: self.name@,
            token_contract: self.token_contract@,
            total_employees: self.total_employees as int,
        }
    }
}

impl Institution {
    /// This institution with one employee more. The new count must fit the
    /// counter.
    pub fn with_one_more(self) -> (r: Institution)
        requires
            self.total_employees < u32::MAX,
        ensures
            r@ == (InstitutionModel { total_employees: self@.total_employees + 1, ..self@ }),
    {
        Institution {
            admin: self.admin,
            name: self.name,
            token_contract: self.token_contract,
            total_employees: self.total_employees + 1,
        }
    }

    /// This institution with one employee less. There must be one to take
    /// away.
    pub fn with_one_less(self) -> (r: Institution)
        requires
            self.total_employees > 0,
        ensures
            r@ == (InstitutionModel { total_employees: self@.total_employees - 1, ..self@ }),
    {
        Institution {
            admin: self.admin,
            name: self.name,
            token_contract: self.token_contract,
            total_employees: self.total_employees - 1,
        }
    }
}

impl Clone for Institution {
    /// A second copy of this record.
    fn clone(&self) -> (r: Institution)
        ensures
            r == *self,
    {
        Institution {
            admin: self.admin.clone(),
            name: self.name.clone(),
            token_contract: self.token_contract.clone(),
            total_employees: self.total_employees,
        }
    }
}

} // verus!
