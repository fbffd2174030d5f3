//! Fixed-size IPC message container.

use vstd::prelude::*;

verus! {

/// Maximum number of message registers (MRs) per message.
pub const MR_COUNT: usize = 4;

/// A compact descriptor for an IPC message.
///
/// * `label` — caller-defined intent / syscall number.
/// * `length` — number of valid MRs in this message.
#[derive(Debug, Clone, Copy, PartialEq, Eq, Structural)]
pub struct MessageInfo {
    /// Caller-defined message label (e.g. syscall number).
    pub label: u64,
    /// Number of valid message registers (0..=`MR_COUNT`).
    pub length: usize,
}

impl MessageInfo {
    /// Construct a `MessageInfo`; `length` is at most [`MR_COUNT`].
    pub fn new(label: u64, length: usize) -> (i: Self)
        requires
            length <= MR_COUNT,
        ensures
            i == (MessageInfo { label, length }),
    {
        MessageInfo { label, length }
    }
}

/// A complete IPC message: info + up to [`MR_COUNT`] data registers.
#[derive(Debug, Clone, Copy, PartialEq, Eq)]
pub struct Message {
    /// Descriptor.
    pub info: MessageInfo,
    /// Message register words.
    pub mrs: [u64; MR_COUNT],
}

impl Message {
    /// Construct an empty message with the given label.
    pub fn new(label: u64) -> (m: Self)
        ensures
            m.info == (MessageInfo { label, length: 0 }),
            forall|i: int| 0 <= i < MR_COUNT ==> m.mrs@[i] == 0,
    {
        Message { info: MessageInfo::new(label, 0), mrs: [0u64; 4] }
    }

    /// Construct a message with `data` written into the first MRs; `data`
    /// holds at most [`MR_COUNT`] words.
    pub fn with_data(label: u64, data: &[u64]) -> (m: Self)
        requires
            data@.len() <= MR_COUNT,
        ensures
            m.info == (MessageInfo { label, length: data@.len() as usize }),
            m.mrs@.subrange(0, data@.len() as int) == data@,
            forall|i: int| data@.len() <= i < MR_COUNT ==> m.mrs@[i] == 0,
    {
        let mut mrs = [0u64; 4];
        let mut i: usize = 0;
        while i < data.len()
            invariant
                i <= data@.len() <= MR_COUNT,
                mrs@.len() == MR_COUNT,
                forall|j: int| 0 <= j < i ==> mrs@[j] == data@[j],
                forall|j: int| i <= j < MR_COUNT ==> mrs@[j] == 0,
            decreases data@.len() - i,
        {
            mrs[i] = data[i];
            i = i + 1;
        }
        assert(mrs@.subrange(0, data@.len() as int) =~= data@);
        Message { info: MessageInfo::new(label, data.len()), mrs }
    }

    /// Return the valid data words; the length recorded in the info is at
    /// most [`MR_COUNT`].
    pub fn data(&self) -> (d: &[u64])
        requires
            self.info.length <= MR_COUNT,
        ensures
            d@ == self.mrs@.subrange(0, self.info.length as int),
    {
        &self.mrs[0..self.info.length]
    }
}

} // verus!
