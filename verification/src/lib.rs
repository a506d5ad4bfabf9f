//! Verified decision logic of the PixivArchive application and worker:
//! settings validation, retry and queue policies, credential handling,
//! and the state machines that drive jobs between storage and Pixiv calls.

pub mod auth;
pub mod bookmarks;
pub mod collection;
pub mod cookie;
pub mod crypto;
pub mod domain;
pub mod events;
pub mod executors;
pub mod following;
pub mod imports;
pub mod installation;
pub mod jobs;
pub mod media;
pub mod pixiv_accounts;
pub mod pixiv_works;
pub mod ranking;
pub mod rules;
pub mod runtime;
pub mod settings;
pub mod subscriptions;
pub mod system;
pub mod text;
pub mod trash;
pub mod worker_state;

use vstd::prelude::*;

verus! {

} // verus!
