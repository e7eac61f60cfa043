//! Password policy, request handling and directory-update logic of a small
//! self-service password change service for Active Directory / Samba AD.
pub mod text;
pub mod password;
pub mod api;
pub mod auth;
pub mod encoding;
pub mod ldap;
pub mod notification;
