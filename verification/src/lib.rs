//! A message-resolution engine for localized text: a registry of per-locale
//! message catalogs, fallback-chain traversal with a cycle guard, recursive
//! argument substitution (an argument may itself be a localization request),
//! and a small set of locale-aware grammar transforms.

pub mod fluent_api;
pub mod functions;
pub mod localization_bundle;
pub mod localization_resource;
pub mod localizeable_data;
pub mod test_utils;
