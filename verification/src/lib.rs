//! Time-ordered 64-bit identifier generation for independent producers.
//!
//! An identifier packs three fields into one `u64`: a millisecond timestamp
//! in the middle bits, a machine identifier in the top bits, and a
//! per-millisecond sequence counter in the low bits. One generator instance
//! owns one sequencing state and hands out strictly increasing identifiers;
//! distinct machine identifiers keep independent instances from colliding.

use vstd::prelude::*;

pub mod laws;

verus! {

// ---------------------------------------------------------------------------
// Spec-level model of the bit layout.
// ---------------------------------------------------------------------------

/// The configuration inputs the layout accepts: between one and eight machine
/// id bits, a machine id below the reserved all-ones value for its width, and
/// a timestamp width of 41 to 43 bits.
pub open spec fn valid_params(machine_id: u8, machine_id_bits: u8, timestamp_bits: u8) -> bool {
    &&& 0 < machine_id_bits <= 8
    &&& (machine_id as u64) < (1u64 << (machine_id_bits as u64)) - 1
    &&& 41 <= timestamp_bits <= 43
}

/// How many low-order bits of an identifier hold the sequence counter.
pub open spec fn sequence_bits_of(machine_id_bits: u8, timestamp_bits: u8) -> u64 {
    (64 - timestamp_bits - machine_id_bits) as u64
}

/// Low-order mask selecting the timestamp bits actually encoded.
pub open spec fn timestamp_mask_of(timestamp_bits: u8) -> u64 {
    ((1u64 << (timestamp_bits as u64)) - 1) as u64
}

/// Inclusive upper bound of the sequence counter.
pub open spec fn max_sequence_of(machine_id_bits: u8, timestamp_bits: u8) -> u64 {
    ((1u64 << sequence_bits_of(machine_id_bits, timestamp_bits)) - 1) as u64
}

/// The machine identifier shifted into the top bits of an identifier.
pub open spec fn machine_id_mask_of(machine_id: u8, machine_id_bits: u8) -> u64 {
    (machine_id as u64) << ((64 - machine_id_bits) as u64)
}

/// The identifier composed from a timestamp `since` and a sequence counter
/// `seq` under the given layout.
pub open spec fn compose_id(
    machine_id: u8,
    machine_id_bits: u8,
    timestamp_bits: u8,
    since: u64,
    seq: u64,
) -> u64 {
    ((since & timestamp_mask_of(timestamp_bits))
        << sequence_bits_of(machine_id_bits, timestamp_bits))
        | machine_id_mask_of(machine_id, machine_id_bits)
        | seq
}

/// How one issuance changes the sequencing state: either another identifier
/// within the same millisecond, or the first identifier of a later one.
pub open spec fn issued_after(since1: u64, seq1: u64, since2: u64, seq2: u64) -> bool {
    ||| (since2 == since1 && seq2 == seq1 + 1)
    ||| (since2 > since1 && seq2 == 0)
}

// ---------------------------------------------------------------------------
// Errors.
// ---------------------------------------------------------------------------

/// A construction-time rejection of an inconsistent layout. The layout is
/// never clamped or truncated to paper over one of these.
#[derive(Clone, Copy, Debug, PartialEq, Eq, Structural)]
pub enum ConfigError {
    /// The machine id width was zero or above eight bits.
    MachineIdBitsOutOfRange,
    /// The machine id did not fit its width, or was the reserved all-ones value.
    MachineIdOutOfRange,
    /// The timestamp width was outside 41 to 43 bits.
    TimestampBitsOutOfRange,
}

/// The only runtime failure: the time source reported a millisecond earlier
/// than one already used for issuance. Fatal for the generator instance.
#[derive(Clone, Copy, Debug, PartialEq, Eq, Structural)]
pub enum IdGenError {
    ClockRegression,
}

// ---------------------------------------------------------------------------
// Layout configuration.
// ---------------------------------------------------------------------------

/// The inputs a configuration was derived from, kept as ghost data so the
/// derived masks can be related back to them.
struct LayoutParams {
    machine_id: u8,
    machine_id_bits: u8,
    timestamp_bits: u8,
}

/// The fixed bit layout of one generator, derived once at construction.
struct IDGenConfig {
    machine_id_mask: u64,
    timestamp_mask: u64,
    timestamp_shift: u8,
    max_seq_no: u64,
    params: Ghost<LayoutParams>,
}

impl IDGenConfig {
    spec fn machine_id(&self) -> u8 {
        self.params@.machine_id
    }

    spec fn machine_id_bits(&self) -> u8 {
        self.params@.machine_id_bits
    }

    spec fn timestamp_bits(&self) -> u8 {
        self.params@.timestamp_bits
    }

    /// The derived fields agree with the recorded inputs, which are valid.
    spec fn wf(&self) -> bool {
        &&& valid_params(self.machine_id(), self.machine_id_bits(), self.timestamp_bits())
        &&& self.machine_id_mask == machine_id_mask_of(self.machine_id(), self.machine_id_bits())
        &&& self.timestamp_mask == timestamp_mask_of(self.timestamp_bits())
        &&& self.timestamp_shift as u64 == sequence_bits_of(
            self.machine_id_bits(),
            self.timestamp_bits(),
        )
        &&& self.max_seq_no == max_sequence_of(self.machine_id_bits(), self.timestamp_bits())
    }

    fn new(machine_id: u8, machine_id_bits: u8, timestamp_bits: u8) -> (r: Result<
        IDGenConfig,
        ConfigError,
    >)
        ensures
            r is Ok <==> valid_params(machine_id, machine_id_bits, timestamp_bits),
            r == Err::<IDGenConfig, ConfigError>(ConfigError::MachineIdBitsOutOfRange) <==> (
            machine_id_bits == 0 || machine_id_bits > 8),
            r == Err::<IDGenConfig, ConfigError>(ConfigError::MachineIdOutOfRange) <==> (0
                < machine_id_bits <= 8 && (machine_id as u64) >= (1u64 << (
            machine_id_bits as u64)) - 1),
            r == Err::<IDGenConfig, ConfigError>(ConfigError::TimestampBitsOutOfRange) <==> (0
                < machine_id_bits <= 8 && (machine_id as u64) < (1u64 << (machine_id_bits as u64))
                - 1 && !(41 <= timestamp_bits <= 43)),
            r matches Ok(c) ==> c.wf() && c.machine_id() == machine_id && c.machine_id_bits()
                == machine_id_bits && c.timestamp_bits() == timestamp_bits,
    {
        if machine_id_bits == 0 || machine_id_bits > 8 {
            return Err(ConfigError::MachineIdBitsOutOfRange);
        }
        proof {
            assert(1u64 << (machine_id_bits as u64) >= 1) by (bit_vector)
                requires
                    machine_id_bits <= 8,
            ;
        }
        if (machine_id as u64) >= (1u64 << (machine_id_bits as u64)) - 1 {
            return Err(ConfigError::MachineIdOutOfRange);
        }
        if timestamp_bits < 41 || timestamp_bits > 43 {
            return Err(ConfigError::TimestampBitsOutOfRange);
        }
        let max_seq_bits: u8 = 64 - timestamp_bits - machine_id_bits;
        proof {
            assert(1u64 << (max_seq_bits as u64) >= 1) by (bit_vector)
                requires
                    max_seq_bits <= 22,
            ;
            assert(1u64 << (timestamp_bits as u64) >= 1) by (bit_vector)
                requires
                    timestamp_bits <= 43,
            ;
        }
        Ok(
            IDGenConfig {
                machine_id_mask: (machine_id as u64) << ((64 - machine_id_bits) as u64),
                timestamp_mask: (1u64 << (timestamp_bits as u64)) - 1,
                timestamp_shift: max_seq_bits,
                max_seq_no: (1u64 << (max_seq_bits as u64)) - 1,
                params: Ghost(LayoutParams { machine_id, machine_id_bits, timestamp_bits }),
            },
        )
    }
}

// ---------------------------------------------------------------------------
// The generator.
// ---------------------------------------------------------------------------

/// One identifier generator: a fixed layout plus the mutable sequencing state
/// (the last millisecond used for issuance and the counter within it). Meant
/// for one logical caller at a time; independent instances with distinct
/// machine identifiers need no coordination.
pub struct IDGen {
    config: IDGenConfig,
    current_seq_no: u64,
    since: u64,
}

impl IDGen {
    /// The machine identifier this generator encodes.
    pub closed spec fn spec_machine_id(&self) -> u8 {
        self.config.machine_id()
    }

    /// The width of the machine identifier field.
    pub closed spec fn spec_machine_id_bits(&self) -> u8 {
        self.config.machine_id_bits()
    }

    /// The width of the timestamp field.
    pub closed spec fn spec_timestamp_bits(&self) -> u8 {
        self.config.timestamp_bits()
    }

    /// The last millisecond for which an identifier was issued (or the
    /// construction-time clock reading before the first issuance).
    pub closed spec fn spec_since(&self) -> u64 {
        self.since
    }

    /// The sequence counter within `spec_since()`.
    pub closed spec fn spec_sequence(&self) -> u64 {
        self.current_seq_no
    }

    /// The layout was validly derived and the sequence counter is in range.
    pub closed spec fn wf(&self) -> bool {
        &&& self.config.wf()
        &&& self.current_seq_no <= max_sequence_of(
            self.spec_machine_id_bits(),
            self.spec_timestamp_bits(),
        )
    }

    /// Builds a generator with the default layout: 8 machine id bits and 41
    /// timestamp bits, leaving 15 bits of sequence space. The sequencing
    /// state starts at the current clock reading with a zero counter.
    pub fn new(machine_id: u8) -> (r: Result<IDGen, ConfigError>)
        ensures
            r is Ok <==> machine_id < 255,
            machine_id == 255 ==> r == Err::<IDGen, ConfigError>(ConfigError::MachineIdOutOfRange),
            r matches Ok(g) ==> g.wf() && g.spec_machine_id() == machine_id
                && g.spec_machine_id_bits() == 8 && g.spec_timestamp_bits() == 41
                && g.spec_sequence() == 0,
    {
        proof {
            assert((1u64 << 8u64) - 1 == 255) by (bit_vector);
        }
        IDGen::new_with_config(machine_id, 8, 41)
    }

    /// Builds a generator with an explicit layout. An invalid layout is
    /// rejected with the exact configuration error; it is never adjusted to
    /// fit. The sequencing state starts at the current clock reading with a
    /// zero counter.
    pub fn new_with_config(machine_id: u8, machine_id_bits: u8, timestamp_bits: u8) -> (r: Result<
        IDGen,
        ConfigError,
    >)
        ensures
            r is Ok <==> valid_params(machine_id, machine_id_bits, timestamp_bits),
            r == Err::<IDGen, ConfigError>(ConfigError::MachineIdBitsOutOfRange) <==> (
            machine_id_bits == 0 || machine_id_bits > 8),
            r == Err::<IDGen, ConfigError>(ConfigError::MachineIdOutOfRange) <==> (0
                < machine_id_bits <= 8 && (machine_id as u64) >= (1u64 << (
            machine_id_bits as u64)) - 1),
            r == Err::<IDGen, ConfigError>(ConfigError::TimestampBitsOutOfRange) <==> (0
                < machine_id_bits <= 8 && (machine_id as u64) < (1u64 << (machine_id_bits as u64))
                - 1 && !(41 <= timestamp_bits <= 43)),
            r matches Ok(g) ==> g.wf() && g.spec_machine_id() == machine_id
                && g.spec_machine_id_bits() == machine_id_bits && g.spec_timestamp_bits()
                == timestamp_bits && g.spec_sequence() == 0,
    {
        let config = match IDGenConfig::new(machine_id, machine_id_bits, timestamp_bits) {
            Ok(c) => c,
            Err(e) => {
                return Err(e);
            },
        };
        let now: u64 = match clock_millis() {
            Some(n) => n,
            None => 0,
        };
        Ok(IDGen { config, current_seq_no: 0, since: now })
    }
}

impl IDGen {
    /// Runs one step of the sequencing state machine for a clock reading
    /// `now` supplied by the caller, and composes the identifier.
    ///
    /// `Err(ClockRegression)` exactly when `now` is earlier than the stored
    /// millisecond; `Ok(None)` exactly when the sequence space of the stored
    /// millisecond is exhausted (the caller retries once the clock advances);
    /// otherwise `Ok(Some(id))` with the state advanced. The state changes
    /// only when an identifier is issued.
    pub fn advance(&mut self, now: u64) -> (r: Result<Option<u64>, IdGenError>)
        requires
            old(self).wf(),
        ensures
            final(self).wf(),
            final(self).spec_machine_id() == old(self).spec_machine_id(),
            final(self).spec_machine_id_bits() == old(self).spec_machine_id_bits(),
            final(self).spec_timestamp_bits() == old(self).spec_timestamp_bits(),
            now < old(self).spec_since() <==> r == Err::<Option<u64>, IdGenError>(
                IdGenError::ClockRegression,
            ),
            (now == old(self).spec_since() && old(self).spec_sequence() == max_sequence_of(
                old(self).spec_machine_id_bits(),
                old(self).spec_timestamp_bits(),
            )) <==> r == Ok::<Option<u64>, IdGenError>(None),
            !(r matches Ok(Some(_))) ==> *final(self) == *old(self),
            now == old(self).spec_since() && old(self).spec_sequence() < max_sequence_of(
                old(self).spec_machine_id_bits(),
                old(self).spec_timestamp_bits(),
            ) ==> final(self).spec_since() == now && final(self).spec_sequence() == old(
                self,
            ).spec_sequence() + 1,
            now > old(self).spec_since() ==> final(self).spec_since() == now
                && final(self).spec_sequence() == 0,
            r matches Ok(Some(id)) ==> id == compose_id(
                old(self).spec_machine_id(),
                old(self).spec_machine_id_bits(),
                old(self).spec_timestamp_bits(),
                final(self).spec_since(),
                final(self).spec_sequence(),
            ) && issued_after(
                old(self).spec_since(),
                old(self).spec_sequence(),
                final(self).spec_since(),
                final(self).spec_sequence(),
            ),
            r matches Ok(Some(id)) ==> (old(self).spec_since() <= timestamp_mask_of(
                old(self).spec_timestamp_bits(),
            ) && final(self).spec_since() <= timestamp_mask_of(old(self).spec_timestamp_bits())
                ==> id > compose_id(
                old(self).spec_machine_id(),
                old(self).spec_machine_id_bits(),
                old(self).spec_timestamp_bits(),
                old(self).spec_since(),
                old(self).spec_sequence(),
            )),
    {
        if now < self.since {
            return Err(IdGenError::ClockRegression);
        }
        proof {
            lemma_layout_bounds(self.spec_machine_id_bits(), self.spec_timestamp_bits());
        }
        if now == self.since {
            proof {
                lemma_sequence_wrap(
                    self.spec_machine_id_bits(),
                    self.spec_timestamp_bits(),
                    self.current_seq_no,
                );
            }
            let next: u64 = (self.current_seq_no + 1) & self.config.max_seq_no;
            if next == 0 {
                return Ok(None);
            }
            self.current_seq_no = next;
        } else {
            self.since = now;
            self.current_seq_no = 0;
        }
        let id = self.compose_current();
        proof {
            if old(self).spec_since() <= timestamp_mask_of(old(self).spec_timestamp_bits())
                && self.spec_since() <= timestamp_mask_of(old(self).spec_timestamp_bits()) {
                laws::lemma_issue_monotonic(
                    old(self).spec_machine_id(),
                    old(self).spec_machine_id_bits(),
                    old(self).spec_timestamp_bits(),
                    old(self).spec_since(),
                    old(self).spec_sequence(),
                    self.spec_since(),
                    self.spec_sequence(),
                );
            }
        }
        Ok(Some(id))
    }

    /// Produces the next identifier, reading the clock itself.
    ///
    /// Fails exactly with `ClockRegression`, leaving the state unchanged,
    /// when the clock reads earlier than the stored millisecond. When the
    /// sequence space of the current millisecond is exhausted it polls the
    /// clock until the millisecond changes; exhaustion is never surfaced. On
    /// success the state took one issuance step and the identifier is its
    /// composition, strictly above the previous composition whenever the
    /// timestamps involved fit the timestamp field.
    pub fn new_id(&mut self) -> (r: Result<u64, IdGenError>)
        requires
            old(self).wf(),
        ensures
            final(self).wf(),
            final(self).spec_machine_id() == old(self).spec_machine_id(),
            final(self).spec_machine_id_bits() == old(self).spec_machine_id_bits(),
            final(self).spec_timestamp_bits() == old(self).spec_timestamp_bits(),
            r is Err ==> *final(self) == *old(self) && r == Err::<u64, IdGenError>(
                IdGenError::ClockRegression,
            ),
            r matches Ok(id) ==> id == compose_id(
                old(self).spec_machine_id(),
                old(self).spec_machine_id_bits(),
                old(self).spec_timestamp_bits(),
                final(self).spec_since(),
                final(self).spec_sequence(),
            ) && issued_after(
                old(self).spec_since(),
                old(self).spec_sequence(),
                final(self).spec_since(),
                final(self).spec_sequence(),
            ),
            r matches Ok(id) ==> (old(self).spec_since() <= timestamp_mask_of(
                old(self).spec_timestamp_bits(),
            ) && final(self).spec_since() <= timestamp_mask_of(old(self).spec_timestamp_bits())
                ==> id > compose_id(
                old(self).spec_machine_id(),
                old(self).spec_machine_id_bits(),
                old(self).spec_timestamp_bits(),
                old(self).spec_since(),
                old(self).spec_sequence(),
            )),
    {
        let now: u64 = match clock_millis() {
            Some(n) => n,
            None => {
                return Err(IdGenError::ClockRegression);
            },
        };
        match self.advance(now) {
            Err(e) => Err(e),
            Ok(Some(id)) => Ok(id),
            Ok(None) => {
                let mut polls: u64 = 0;
                while polls < u64::MAX
                    invariant
                        self.wf(),
                        *self == *old(self),
                    decreases u64::MAX - polls,
                {
                    polls = polls + 1;
                    let again: u64 = match clock_millis() {
                        Some(n) => n,
                        None => {
                            return Err(IdGenError::ClockRegression);
                        },
                    };
                    if again != self.since {
                        match self.advance(again) {
                            Err(e) => {
                                return Err(e);
                            },
                            Ok(Some(id)) => {
                                return Ok(id);
                            },
                            Ok(None) => {
                                proof {
                                    assert(false);
                                }
                                return Err(IdGenError::ClockRegression);
                            },
                        }
                    }
                }
                // A time source that reports one millisecond for this many
                // consecutive reads has failed; treat it as the fatal clock
                // condition rather than blocking forever.
                Err(IdGenError::ClockRegression)
            },
        }
    }

    /// Composes the identifier for the current sequencing state.
    fn compose_current(&self) -> (id: u64)
        requires
            self.wf(),
        ensures
            id == compose_id(
                self.spec_machine_id(),
                self.spec_machine_id_bits(),
                self.spec_timestamp_bits(),
                self.spec_since(),
                self.spec_sequence(),
            ),
    {
        ((self.since & self.config.timestamp_mask) << (self.config.timestamp_shift as u64))
            | self.config.machine_id_mask | self.current_seq_no
    }
}

// ---------------------------------------------------------------------------
// Bit-level facts about the derived layout.
// ---------------------------------------------------------------------------

/// The derived widths and bounds every valid layout satisfies.
proof fn lemma_layout_bounds(machine_id_bits: u8, timestamp_bits: u8)
    by (bit_vector)
    requires
        0 < machine_id_bits <= 8,
        41 <= timestamp_bits <= 43,
    ensures
        13 <= sequence_bits_of(machine_id_bits, timestamp_bits) <= 22,
        0x1fff <= max_sequence_of(machine_id_bits, timestamp_bits) <= 0x3fffff,
        timestamp_mask_of(timestamp_bits) >= 0x1ff_ffff_ffff,
{
}

/// Masked increment of the sequence counter: below the bound it counts up by
/// one, at the bound it wraps to zero.
proof fn lemma_sequence_wrap(machine_id_bits: u8, timestamp_bits: u8, seq: u64)
    by (bit_vector)
    requires
        0 < machine_id_bits <= 8,
        41 <= timestamp_bits <= 43,
        seq <= max_sequence_of(machine_id_bits, timestamp_bits),
    ensures
        seq < max_sequence_of(machine_id_bits, timestamp_bits) ==> ((seq + 1) as u64)
            & max_sequence_of(machine_id_bits, timestamp_bits) == seq + 1,
        seq == max_sequence_of(machine_id_bits, timestamp_bits) ==> ((seq + 1) as u64)
            & max_sequence_of(machine_id_bits, timestamp_bits) == 0,
{
}

// ---------------------------------------------------------------------------
// The time source.
// ---------------------------------------------------------------------------

/// Relies on std::time::SystemTime::now and SystemTime::duration_since:
/// milliseconds elapsed since the Unix epoch, or None when the system clock
/// reads earlier than the epoch. Nothing is promised of the reading; callers
/// handle every value.
#[verifier::external_body]
fn clock_millis() -> Option<u64> {
    match std::time::SystemTime::now().duration_since(std::time::UNIX_EPOCH) {
        Ok(d) => Some(d.as_millis() as u64),
        Err(_) => None,
    }
}

} // verus!
