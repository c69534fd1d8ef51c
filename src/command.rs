use vstd::prelude::*;
use crate::backend::{Input, Output};
use crate::consts::{STLINK_CMD_SIZE_V2, STLINK_DEBUG_COMMAND, STLINK_RX_EP, STLINK_TX_EP};
use crate::error::IoError;

verus! {

/// A command frame: `head` followed by zero bytes up to the frame size.
pub open spec fn frame_of(head: Seq<u8>) -> Seq<u8> {
    head + Seq::new((STLINK_CMD_SIZE_V2 - head.len()) as nat, |_i: int| 0u8)
}

/// The frame of a plain command: its two code bytes at the head.
pub fn command_frame(cmd0: u8, cmd1: u8) -> (s: Vec<u8>)
    ensures
        s@ == frame_of(seq![cmd0, cmd1]),
{
    let mut s = vec![0u8; STLINK_CMD_SIZE_V2];
    s.set(0, cmd0);
    s.set(1, cmd1);
    assert(s@ =~= frame_of(seq![cmd0, cmd1]));
    s
}

/// The frame of a debug command: the debug marker, then the two sub-command bytes.
pub fn debug_command_frame(cmd0: u8, cmd1: u8) -> (s: Vec<u8>)
    ensures
        s@ == frame_of(seq![STLINK_DEBUG_COMMAND, cmd0, cmd1]),
{
    let mut s = vec![0u8; STLINK_CMD_SIZE_V2];
    s.set(0, STLINK_DEBUG_COMMAND);
    s.set(1, cmd0);
    s.set(2, cmd1);
    assert(s@ =~= frame_of(seq![STLINK_DEBUG_COMMAND, cmd0, cmd1]));
    s
}

/// Sends `frame` to the command endpoint, then reads a response of
/// `resp_len` bytes from the answer endpoint; the write completes before the
/// read is issued.
fn exchange<H: Input + Output>(handle: &H, frame: &Vec<u8>, resp_len: usize) -> (r: Result<
    Vec<u8>,
    IoError,
>)
    ensures
        r matches Ok(resp) ==> resp@.len() == resp_len,
{
    let mut r = vec![0u8; resp_len];
    handle.write_pipe(STLINK_TX_EP, frame.as_slice())?;
    handle.read_pipe(STLINK_RX_EP, r.as_mut_slice())?;
    Ok(r)
}

/// Sends the plain command `cmd0 cmd1` and reads its `resp_len`-byte response.
pub fn command<H: Input + Output>(handle: &H, cmd0: u8, cmd1: u8, resp_len: usize) -> (r: Result<
    Vec<u8>,
    IoError,
>)
    ensures
        r matches Ok(resp) ==> resp@.len() == resp_len,
{
    let s = command_frame(cmd0, cmd1);
    exchange(handle, &s, resp_len)
}

/// Sends the debug command `cmd0 cmd1` and reads its `resp_len`-byte response.
pub fn debug_command<H: Input + Output>(handle: &H, cmd0: u8, cmd1: u8, resp_len: usize) -> (r:
    Result<Vec<u8>, IoError>)
    ensures
        r matches Ok(resp) ==> resp@.len() == resp_len,
{
    let s = debug_command_frame(cmd0, cmd1);
    exchange(handle, &s, resp_len)
}

} // verus!
