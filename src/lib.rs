//! Organizations, payrolls, divisions, jobs, banks and employees, kept in
//! memory with their ownership rules: every record is reached through the
//! scope that owns it, and every change is checked against the records it
//! names.

pub mod error;
pub mod ids;
pub mod text;
pub mod date;
pub mod nullable;
pub mod table;
pub mod organization;
pub mod payroll;
pub mod bank;
pub mod job;
pub mod division;
pub mod employee;
pub mod requests;
