//! Verified business rules of an ERP suite: bills of material, kanban boards,
//! job scheduling, key management, leases, master data, monitoring,
//! manufacturing, material planning, loyalty, learning, the knowledge base,
//! notes, notifications and several small HR modules.

pub mod bom_diff;
pub mod common;
pub mod kanban;
pub mod jobs;
pub mod keys;
pub mod lease;
pub mod mdm;
pub mod monitoring;
pub mod manufacturing;
pub mod ir;
pub mod leave;
pub mod legal;
pub mod mentorship;
pub mod mobility;
pub mod notes;
pub mod notifications;
pub mod knowledge;
pub mod mrp;
pub mod loyalty;
pub mod lms;
pub mod learning;
