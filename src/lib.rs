//! Orchestration core of an EtherCAT master session: the session state
//! machine, process-data synchronisation, mailbox polling and discovery
//! records, with their contracts proved by Verus.
pub mod access;
pub mod encoding;
pub mod error;
pub mod session;
pub mod master;
pub mod process_data;
pub mod mailbox;
pub mod requests;
pub mod scan;
pub mod laws;
