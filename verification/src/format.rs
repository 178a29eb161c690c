//! Rendering parsed messages in binary form: a message is written as its
//! raw content bytes, nothing more.

use crate::dlt::DltProxyMessage;
use vstd::prelude::*;
use vstd::string::StrSliceExecFns;
use vstd::utf8::encode_utf8;

verus! {

/// Formats parsed messages as raw bytes.
#[derive(Debug, Clone)]
pub struct MsgBinaryFormatter {}

impl MsgBinaryFormatter {
    /// A fresh formatter; it keeps no state.
    pub fn new() -> (r: Self)
        ensures
            r == (MsgBinaryFormatter {  }),
    {
        MsgBinaryFormatter {  }
    }

    /// The exact bytes one message contributes to the output: the UTF-8 form
    /// of its content.
    pub fn write_msg(&mut self, msg: &DltProxyMessage) -> (r: Vec<u8>)
        ensures
            r@ == encode_utf8(msg@),
    {
        msg.content.as_str().as_bytes_vec()
    }
}

impl Default for MsgBinaryFormatter {
    fn default() -> (r: Self)
        ensures
            r == (MsgBinaryFormatter {  }),
    {
        MsgBinaryFormatter {  }
    }
}

} // verus!
