//! Names under which each worker records its events.

use vstd::prelude::*;

verus! {

pub const DISCOVERY: &'static str = "discovery";

pub const UPLOADER: &'static str = "uploader";

pub const FILE_WATCHER: &'static str = "file_watcher";

pub const DELETION_WATCHER: &'static str = "deletion_watcher";

} // verus!
