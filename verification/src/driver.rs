//! The driver: construction, and a voltage read taken one bus transaction at
//! a time.
//!
//! Construction needs one transaction, the write of the configuration word.
//! A voltage read needs two or three, in a fixed order:
//!
//! | stage     | transaction                          | when             |
//! |-----------|--------------------------------------|------------------|
//! | `Trigger` | rewrite the configuration register   | single-shot only |
//! | `Select`  | point the chip at the conversion register | always      |
//! | `Fetch`   | read two bytes                       | always           |
//!
//! The first failure ends the operation with the bus's error, unchanged.
//! The single-shot trigger is the rewrite alone: no start bit is added to the
//! stored word, and nothing waits for the conversion to complete before the
//! fetch.

use vstd::prelude::*;

use crate::bus::{BusRequest, ADS111X_CONFIG_REGISTER, ADS111X_CONVERSION_REGISTER};
use crate::options::ADS111XConfig;
use crate::reading::{big_endian_i16, read_i16_big_endian, Reading};

verus! {

/// The transaction that a voltage read is waiting on.
#[derive(Debug, Clone, Copy, PartialEq, Eq, Structural)]
pub enum ReadStage {
    /// The rewrite of the configuration register that starts a single-shot
    /// conversion.
    Trigger,
    /// The write that points the chip at the conversion register.
    Select,
    /// The two-byte read of the conversion register.
    Fetch,
}

/// How a voltage read goes on after a transaction has returned.
#[derive(Debug)]
pub enum ReadStep<E> {
    /// Perform `request` next; the read then waits at `stage`.
    Issue { stage: ReadStage, request: BusRequest },
    /// The read is complete.
    Sample(Reading),
    /// The transaction failed and the read is over. The error is the bus's
    /// own.
    Failed(E),
}

impl ReadStage {
    /// The stage that follows when this stage's transaction succeeds; `None`
    /// after the fetch, which is the last.
    pub open spec fn successor(self) -> Option<ReadStage> {
        match self {
            ReadStage::Trigger => Some(ReadStage::Select),
            ReadStage::Select => Some(ReadStage::Fetch),
            ReadStage::Fetch => None,
        }
    }

    /// How many transactions follow this stage's own in a read that does not
    /// fail.
    pub open spec fn remaining(self) -> nat {
        match self {
            ReadStage::Trigger => 2,
            ReadStage::Select => 1,
            ReadStage::Fetch => 0,
        }
    }
}

/// The write that applies `config` to the chip: its word, to the
/// configuration register.
pub open spec fn spec_setup_request(config: ADS111XConfig) -> BusRequest {
    BusRequest::WriteWord {
        register: ADS111X_CONFIG_REGISTER,
        value: config.spec_register_word(),
    }
}

/// The stage at which a voltage read begins: the trigger in single-shot
/// mode, the register select in continuous mode.
pub open spec fn spec_first_stage(config: ADS111XConfig) -> ReadStage {
    if config.operating_mode.spec_is_continuous() {
        ReadStage::Select
    } else {
        ReadStage::Trigger
    }
}

/// The transaction of each stage. The trigger is the very write that
/// construction made.
pub open spec fn spec_request(config: ADS111XConfig, stage: ReadStage) -> BusRequest {
    match stage {
        ReadStage::Trigger => spec_setup_request(config),
        ReadStage::Select => BusRequest::WritePointer { register: ADS111X_CONVERSION_REGISTER },
        ReadStage::Fetch => BusRequest::ReadWord,
    }
}

/// The sample that a receive buffer decodes to under `config`.
pub open spec fn spec_reading(config: ADS111XConfig, buffer: [u8; 2]) -> Reading {
    Reading {
        raw: big_endian_i16(buffer[0], buffer[1]) as i16,
        full_scale_millivolts: config.gain_amplifier.spec_full_scale_millivolts(),
    }
}

/// One step of a voltage read: what follows when the transaction of `stage`
/// has returned `outcome`, with the receive buffer holding `buffer`.
pub open spec fn spec_read_step<E>(
    config: ADS111XConfig,
    stage: ReadStage,
    outcome: Result<(), E>,
    buffer: [u8; 2],
) -> ReadStep<E> {
    match outcome {
        Err(error) => ReadStep::Failed(error),
        Ok(_) => match stage.successor() {
            Some(next) => ReadStep::Issue { stage: next, request: spec_request(config, next) },
            None => ReadStep::Sample(spec_reading(config, buffer)),
        },
    }
}

/// The transactions from `stage` to the end of a read in which none fails:
/// the stage's own, then those of its successors.
pub open spec fn spec_requests_from(config: ADS111XConfig, stage: ReadStage) -> Seq<BusRequest>
    decreases stage.remaining(),
{
    let rest = match stage.successor() {
        Some(next) => spec_requests_from(config, next),
        None => Seq::empty(),
    };
    seq![spec_request(config, stage)] + rest
}

/// All transactions of one voltage read in which none fails, in order.
pub open spec fn spec_read_requests(config: ADS111XConfig) -> Seq<BusRequest> {
    spec_requests_from(config, spec_first_stage(config))
}

/// The course of a voltage read from `stage` on, against a bus that answers
/// the read's transactions with `outcomes`, in order, and whose fetch leaves
/// `buffer` in the receive buffer: the transactions that the read issues, and
/// how it ends. The end is `None` while the read still waits for an outcome
/// that the sequence does not hold.
pub open spec fn spec_run<E>(
    config: ADS111XConfig,
    stage: ReadStage,
    outcomes: Seq<Result<(), E>>,
    buffer: [u8; 2],
) -> (Seq<BusRequest>, Option<Result<Reading, E>>)
    decreases stage.remaining(),
{
    let issued = seq![spec_request(config, stage)];
    if outcomes.len() == 0 {
        (issued, None)
    } else {
        match spec_read_step(config, stage, outcomes[0], buffer) {
            ReadStep::Issue { stage: next, .. } => {
                let (later, end) = spec_run(config, next, outcomes.skip(1), buffer);
                (issued + later, end)
            },
            ReadStep::Sample(reading) => (issued, Some(Ok(reading))),
            ReadStep::Failed(error) => (issued, Some(Err(error))),
        }
    }
}

/// A configured converter.
///
/// The driver keeps what it derived from the configuration at construction:
/// the packed word, whether the mode is continuous, and the full-scale
/// voltage. None of them changes afterwards. Its view is the configuration
/// that it was made from.
pub struct ADS111X {
    config: u16,
    continuous: bool,
    full_scale_millivolts: u16,
    settings: Ghost<ADS111XConfig>,
}

impl View for ADS111X {
    type V = ADS111XConfig;

    closed spec fn view(&self) -> ADS111XConfig {
        self.settings@
    }
}

impl ADS111X {
    /// The three cached values are those of one configuration.
    #[verifier::type_invariant]
    spec fn derived_from_settings(self) -> bool {
        &&& self.config == self.settings@.spec_register_word()
        &&& self.continuous == self.settings@.operating_mode.spec_is_continuous()
        &&& self.full_scale_millivolts
            == self.settings@.gain_amplifier.spec_full_scale_millivolts()
    }

    /// The transaction that construction needs: perform it, then hand its
    /// outcome to [`ADS111X::new`].
    pub fn setup_request(config: &ADS111XConfig) -> (request: BusRequest)
        ensures
            request == spec_setup_request(*config),
    {
        BusRequest::WriteWord { register: ADS111X_CONFIG_REGISTER, value: config.register_word() }
    }

    /// Makes the driver for `config`, given the outcome of writing the
    /// configuration word to the chip.
    ///
    /// There is a driver exactly when that write succeeded. When it failed
    /// there is none, and the error is handed back as it came.
    pub fn new<E>(config: ADS111XConfig, written: Result<(), E>) -> (result: Result<ADS111X, E>)
        ensures
            written is Ok ==> (result matches Ok(driver) && driver@ == config),
            written matches Err(error) ==> (result matches Err(same) && same == error),
    {
        match written {
            Ok(_) => Ok(
                ADS111X {
                    config: config.register_word(),
                    continuous: config.operating_mode.is_continuous(),
                    full_scale_millivolts: config.gain_amplifier.full_scale_millivolts(),
                    settings: Ghost(config),
                },
            ),
            Err(error) => Err(error),
        }
    }

    /// The transaction of `stage`.
    pub fn request(&self, stage: ReadStage) -> (request: BusRequest)
        ensures
            request == spec_request(self@, stage),
    {
        proof {
            use_type_invariant(self);
        }
        match stage {
            ReadStage::Trigger => BusRequest::WriteWord {
                register: ADS111X_CONFIG_REGISTER,
                value: self.config,
            },
            ReadStage::Select => BusRequest::WritePointer { register: ADS111X_CONVERSION_REGISTER },
            ReadStage::Fetch => BusRequest::ReadWord,
        }
    }

    /// Starts a voltage read: the stage it begins at, and the transaction to
    /// perform first.
    pub fn begin_read(&self) -> (start: (ReadStage, BusRequest))
        ensures
            start.0 == spec_first_stage(self@),
            start.1 == spec_request(self@, start.0),
    {
        proof {
            use_type_invariant(self);
        }
        let stage = if self.continuous {
            ReadStage::Select
        } else {
            ReadStage::Trigger
        };
        (stage, self.request(stage))
    }

    /// Takes a voltage read one step further: the transaction of `stage` has
    /// returned `outcome`, and `buffer` is the receive buffer as it now
    /// stands.
    ///
    /// A failure ends the read with the error as it came, whatever the stage,
    /// and no sample. A success moves to the next stage, or after the fetch
    /// yields the sample: the buffer's two bytes as a big-endian signed code,
    /// with the full-scale voltage of the configured gain.
    pub fn read_voltage<E>(
        &self,
        stage: ReadStage,
        outcome: Result<(), E>,
        buffer: &[u8; 2],
    ) -> (step: ReadStep<E>)
        ensures
            step == spec_read_step(self@, stage, outcome, *buffer),
            outcome matches Err(error) ==> step == ReadStep::Failed(error),
            outcome is Ok ==> !(step is Failed),
    {
        proof {
            use_type_invariant(self);
        }
        match outcome {
            Err(error) => ReadStep::Failed(error),
            Ok(_) => match stage {
                ReadStage::Trigger => ReadStep::Issue {
                    stage: ReadStage::Select,
                    request: self.request(ReadStage::Select),
                },
                ReadStage::Select => ReadStep::Issue {
                    stage: ReadStage::Fetch,
                    request: self.request(ReadStage::Fetch),
                },
                ReadStage::Fetch => ReadStep::Sample(
                    Reading {
                        raw: read_i16_big_endian(buffer),
                        full_scale_millivolts: self.full_scale_millivolts,
                    },
                ),
            },
        }
    }

    /// The packed configuration word.
    pub fn config_word(&self) -> (word: u16)
        ensures
            word == self@.spec_register_word(),
    {
        proof {
            use_type_invariant(self);
        }
        self.config
    }

    /// Whether the converter was configured for continuous conversion.
    pub fn is_continuous(&self) -> (continuous: bool)
        ensures
            continuous <==> self@.operating_mode is ContinuousConversion,
    {
        proof {
            use_type_invariant(self);
        }
        self.continuous
    }

    /// Full-scale voltage of the configured gain, in millivolts.
    pub fn full_scale_millivolts(&self) -> (millivolts: u16)
        ensures
            millivolts == self@.gain_amplifier.spec_full_scale_millivolts(),
    {
        proof {
            use_type_invariant(self);
        }
        self.full_scale_millivolts
    }
}

/// A voltage read that does not fail consists, in single-shot mode, of one
/// write of the configuration word, one write that selects the conversion
/// register and one two-byte read, in that order; in continuous mode, of the
/// select and the read alone, with no write to the configuration register.
pub proof fn lemma_read_requests(config: ADS111XConfig)
    ensures
        config.operating_mode is SingleShot ==> spec_read_requests(config) == seq![
            (BusRequest::WriteWord {
                register: ADS111X_CONFIG_REGISTER,
                value: config.spec_register_word(),
            }),
            (BusRequest::WritePointer { register: ADS111X_CONVERSION_REGISTER }),
            BusRequest::ReadWord,
        ],
        config.operating_mode is ContinuousConversion ==> spec_read_requests(config) == seq![
            (BusRequest::WritePointer { register: ADS111X_CONVERSION_REGISTER }),
            BusRequest::ReadWord,
        ],
{
    reveal_with_fuel(spec_requests_from, 3);
}

/// A voltage read in which no transaction fails issues all of its
/// transactions, each once and in order, and ends with the sample that the
/// receive buffer decodes to.
pub proof fn lemma_run_without_failure<E>(
    config: ADS111XConfig,
    outcomes: Seq<Result<(), E>>,
    buffer: [u8; 2],
)
    requires
        outcomes.len() >= spec_read_requests(config).len(),
        forall|i: int| 0 <= i < spec_read_requests(config).len() ==> (#[trigger] outcomes[i]) is Ok,
    ensures
        spec_run(config, spec_first_stage(config), outcomes, buffer) == (
            spec_read_requests(config),
            Some(Ok::<Reading, E>(spec_reading(config, buffer))),
        ),
{
    lemma_read_requests(config);
    reveal_with_fuel(spec_run, 3);
    let second = outcomes.skip(1);
    let third = second.skip(1);
    assert(outcomes[0] is Ok);
    assert(second[0] == outcomes[1]);
    if config.operating_mode is SingleShot {
        assert(third[0] == outcomes[2]);
    }
    let (issued, end) = spec_run(config, spec_first_stage(config), outcomes, buffer);
    assert(issued =~= spec_read_requests(config));
}

/// A voltage read stops at the first transaction that fails: it has issued
/// the transactions up to that one and none after it, and it ends with that
/// transaction's error, unchanged, and with no sample.
pub proof fn lemma_run_stops_at_failure<E>(
    config: ADS111XConfig,
    outcomes: Seq<Result<(), E>>,
    buffer: [u8; 2],
    failing: int,
)
    requires
        0 <= failing < spec_read_requests(config).len(),
        failing < outcomes.len(),
        forall|i: int| 0 <= i < failing ==> (#[trigger] outcomes[i]) is Ok,
        outcomes[failing] is Err,
    ensures
        spec_run(config, spec_first_stage(config), outcomes, buffer) == (
            spec_read_requests(config).take(failing + 1),
            Some(Err::<Reading, E>(outcomes[failing]->Err_0)),
        ),
{
    lemma_read_requests(config);
    reveal_with_fuel(spec_run, 3);
    let second = outcomes.skip(1);
    let third = second.skip(1);
    if failing >= 1 {
        assert(outcomes[0] is Ok);
        assert(second[0] == outcomes[1]);
    }
    if failing >= 2 {
        assert(outcomes[1] is Ok);
        assert(third[0] == outcomes[2]);
    }
    let (issued, end) = spec_run(config, spec_first_stage(config), outcomes, buffer);
    assert(issued =~= spec_read_requests(config).take(failing + 1));
}

} // verus!
