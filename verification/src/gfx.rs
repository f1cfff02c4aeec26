//! The graphics-kernel provider arguments of an elevated collector
//! session.
use vstd::prelude::*;

use crate::provider::provider_line;
use crate::text::push_hex;

verus! {

pub const DXGKRNL_BASE_KEYWORD: u64 = 0x1;

/// The recorder's plain-session properties, as far as graphics collection
/// reads them.
#[derive(Debug, Clone, Copy, PartialEq, Eq, Structural)]
pub struct RecordingProps {
    pub gfx: bool,
}

/// What the recorder is recording: everything, one process, or a process
/// it launches itself.
#[derive(Debug, Clone, Copy, PartialEq, Eq, Structural)]
pub enum RecordingMode {
    All,
    Pid(u32),
    Launch,
}

/// The graphics-kernel provider strings: one base-keyword line when
/// graphics collection is on, none otherwise.
pub fn gfx_xperf_args(props: &RecordingProps, recording_mode: &RecordingMode) -> (r: Vec<String>)
    ensures
        !props.gfx ==> r@.len() == 0,
        props.gfx ==> r@.len() == 1 && r@[0]@ == provider_line(
            "Microsoft-Windows-DxgKrnl"@,
            DXGKRNL_BASE_KEYWORD,
            "1"@,
        ),
{
    let mut providers: Vec<String> = Vec::new();
    if !props.gfx {
        return providers;
    }
    let _is_attach = match recording_mode {
        RecordingMode::All => true,
        RecordingMode::Pid(_) => true,
        RecordingMode::Launch => false,
    };
    let mut s = "Microsoft-Windows-DxgKrnl".to_owned();
    s.append(":0x");
    push_hex(DXGKRNL_BASE_KEYWORD, &mut s);
    s.append(":");
    s.append("1");
    proof {
        assert(s@ =~= provider_line("Microsoft-Windows-DxgKrnl"@, DXGKRNL_BASE_KEYWORD, "1"@));
    }
    providers.push(s);
    providers
}

} // verus!
