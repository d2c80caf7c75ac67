//! The decision logic of the Chatty Factory workbench: the governance views
//! and their refresh rules, the extension-lane browser (filters, badges,
//! ordering, favorites, recent lanes, activity), paired-proof summaries,
//! patchability and patch X-ray verdicts, receipt ordering and tallies, and
//! the acceptance checks that a generated project must pass, together with
//! the failure classifier that sorts their messages.
pub mod text;
pub mod governance_text;
pub mod refresh;
pub mod failure;
pub mod order;
pub mod extensions;
pub mod extension_sort;
pub mod patchability;
pub mod families;
pub mod search;
pub mod proofs;
pub mod workbench;
pub mod text_sort;
pub mod surface;
pub mod helper_checks;
pub mod module_contracts;
pub mod acceptance;
pub mod tally;
pub mod xray;
pub mod records;
pub mod lane_report;
pub mod tasks;
pub mod profiles;
pub mod record_order;
pub mod registry;
pub mod toasts;
pub mod project_browser;
pub mod dashboard;
pub mod governance_panel;
pub mod missing_files;
pub mod constraint_shelf;
pub mod proof_history;
