use crate::bytes::{decode_words, host_words};
use crate::device::{Buffer, Command, Device, Op};
use crate::error::Error;
use vstd::prelude::*;

verus! {

/// What the mapping callback delivered.
#[derive(Debug, Clone, Copy, PartialEq, Eq, Structural)]
pub enum MapSignal {
    /// The buffer is mapped and may be read.
    Mapped,
    /// The backend rejected the mapping.
    Failed,
}

/// A host read that has been asked for: the copy into the staging buffer is
/// submitted and its mapping requested, and nothing may be read yet.
#[derive(Debug)]
pub struct Readback {
    staging: Buffer,
}

/// A staging buffer whose mapping the device has signalled: its bytes may
/// be read. There is no other way to get one than [`Readback::signal`].
#[derive(Debug)]
pub struct MappedRange {
    staging: Buffer,
}

impl Readback {
    /// The buffer that the bytes are copied to.
    pub closed spec fn staging(&self) -> Buffer {
        self.staging
    }

    /// The buffer that the bytes are copied to.
    pub fn buffer(&self) -> (r: Buffer)
        ensures
            r == self.staging(),
    {
        self.staging
    }

    /// A read through `staging`.
    pub(crate) fn start(staging: Buffer) -> (r: Readback)
        ensures
            r.staging() == staging,
    {
        Readback { staging }
    }

    /// Takes what the awaited completion signal gave. Only a signal that
    /// fired with success opens the mapped range. A signal that was dropped
    /// without firing, or a rejected mapping, is an error, and the staging
    /// buffer is let go.
    pub fn signal(self, device: &mut Device, delivered: Option<MapSignal>) -> (r: Result<
        MappedRange,
        Error,
    >)
        ensures
            final(device).table() == old(device).table(),
            r.is_ok() <==> delivered == Some(MapSignal::Mapped),
            r.is_ok() ==> r.unwrap().staging() == self.staging() && final(device).log() == old(
                device,
            ).log(),
            r.is_err() ==> final(device).log() == old(device).log().push(
                Op::Release { buffer: self.staging().id },
            ),
            delivered.is_none() ==> r == Err::<MappedRange, Error>(Error::ReceiverReturnedNone),
            delivered == Some(MapSignal::Failed) ==> r == Err::<MappedRange, Error>(
                Error::BufferAsync,
            ),
    {
        match delivered {
            Some(MapSignal::Mapped) => Ok(MappedRange { staging: self.staging }),
            Some(MapSignal::Failed) => {
                device.record(Command::Release { buffer: self.staging.id });
                Err(Error::BufferAsync)
            },
            None => {
                device.record(Command::Release { buffer: self.staging.id });
                Err(Error::ReceiverReturnedNone)
            },
        }
    }
}

impl MappedRange {
    /// The mapped buffer.
    pub closed spec fn staging(&self) -> Buffer {
        self.staging
    }

    /// The mapped buffer.
    pub fn buffer(&self) -> (r: Buffer)
        ensures
            r == self.staging(),
    {
        self.staging
    }

    /// Whether `len` bytes are what this range holds, as whole words.
    pub open spec fn accepts(&self, len: nat) -> bool {
        len == self.staging().bytes && len % 4 == 0
    }

    /// Turns the bytes read from the mapped range into 32-bit words in the
    /// byte order of the host, then gives the mapping up and lets the
    /// staging buffer go. Bytes of another length than the buffer's, or not
    /// a whole number of words, are an internal error.
    pub fn decode(self, device: &mut Device, bytes: &[u8]) -> (r: Result<Vec<u32>, Error>)
        ensures
            final(device).table() == old(device).table(),
            final(device).log() == old(device).log().push(
                Op::Unmap { buffer: self.staging().id },
            ).push(Op::Release { buffer: self.staging().id }),
            r.is_ok() <==> self.accepts(bytes@.len()),
            r.is_ok() ==> r.unwrap()@ == host_words(bytes@) && 4 * r.unwrap()@.len()
                == bytes@.len(),
            r.is_err() ==> r.unwrap_err().is_internal(),
    {
        device.record(Command::Unmap { buffer: self.staging.id });
        device.record(Command::Release { buffer: self.staging.id });
        if bytes.len() as u64 != self.staging.bytes {
            return Err(
                Error::InternalError("mapped range and staging buffer differ in length".to_string()),
            );
        }
        match decode_words(bytes) {
            Some(words) => Ok(words),
            None => Err(
                Error::InternalError("mapped range is not a whole number of elements".to_string()),
            ),
        }
    }
}

} // verus!
