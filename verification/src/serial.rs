//! Serial output driver model: a formatted-write sink over the UART. The
//! model records the bytes handed to the port, in order; the layer that
//! owns the real port transmits them. The port initializes itself lazily on
//! first use.
use vstd::prelude::*;
use vstd::string::StringSliceAdditionalSpecFns;

verus! {

/// The UART seen as a sink: whether its one-time line setup has run, and
/// every byte transmitted so far, oldest first.
pub struct SerialPort {
    initialized: bool,
    transmitted: Vec<u8>,
}

impl SerialPort {
    pub closed spec fn initialized_spec(self) -> bool {
        self.initialized
    }

    pub closed spec fn transmitted_spec(self) -> Seq<u8> {
        self.transmitted@
    }

    /// A port that has not been touched yet.
    pub fn new() -> (p: SerialPort)
        ensures
            !p.initialized_spec(),
            p.transmitted_spec() =~= Seq::<u8>::empty(),
    {
        SerialPort { initialized: false, transmitted: Vec::new() }
    }

    /// Whether the one-time line setup has run.
    pub fn is_initialized(&self) -> (b: bool)
        ensures
            b == self.initialized_spec(),
    {
        self.initialized
    }

    /// The bytes transmitted so far, oldest first.
    pub fn transmitted(&self) -> (t: &Vec<u8>)
        ensures
            t@ == self.transmitted_spec(),
    {
        &self.transmitted
    }

    /// Transmit a string's UTF-8 bytes in order, running the one-time line
    /// setup first if it has not run yet.
    pub fn write_string(&mut self, string: &str)
        ensures
            final(self).initialized_spec(),
            final(self).transmitted_spec() == old(self).transmitted_spec() + string.spec_bytes(),
    {
        if !self.initialized {
            self.initialized = true;
        }
        let bytes = string.as_bytes();
        let mut i: usize = 0;
        while i < bytes.len()
            invariant
                i <= bytes@.len(),
                self.initialized,
                self.transmitted@ == old(self).transmitted@ + bytes@.take(i as int),
            decreases bytes@.len() - i,
        {
            self.transmitted.push(bytes[i]);
            proof {
                assert(old(self).transmitted@ + bytes@.take(i as int) + seq![bytes@[i as int]]
                    =~= old(self).transmitted@ + bytes@.take(i + 1));
            }
            i += 1;
        }
        proof {
            assert(bytes@.take(bytes@.len() as int) =~= bytes@);
        }
    }
}

/// Writes formatted diagnostic text to the serial sink.
pub fn _print(port: &mut SerialPort, text: &str)
    ensures
        final(port).initialized_spec(),
        final(port).transmitted_spec() == old(port).transmitted_spec() + text.spec_bytes(),
{
    port.write_string(text);
}

} // verus!
