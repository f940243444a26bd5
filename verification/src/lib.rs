//! The verified core of Cargo, a dual-pane FTP, FTPS and SFTP client:
//! listings and paths, saved sites and their editor, permissions, conflict
//! handling, transfer planning and the transfer queue.

pub mod text;
pub mod numbers;
pub mod protocol;
pub mod ftp_listing;
pub mod site_manager;
pub mod conflict;
pub mod permissions;
pub mod transfer;
pub mod navigation;
pub mod file_icons;
pub mod site_form;
pub mod transfer_plan;
pub mod sorting;
