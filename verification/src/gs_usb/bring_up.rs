//! Bringing a channel up: which request comes next, and what the replies decide.
//!
//! The bring-up is a sequence of steps that the caller performs on the device.
//! [`BringUp::action`] names the step to perform now, [`BringUp::advance`]
//! takes what came of it, and [`BringUp::bus`] gives the channel once it is up.

use vstd::prelude::*;
use vstd::slice::slice_to_vec;

use crate::error::CanIoError;
use crate::gs_usb::config::GsUsbConfig;
use crate::gs_usb::link::{ControlIn, GsUsbBus, FEATURE_HW_TIMESTAMP};
#[allow(unused_imports)]
use crate::gs_usb::link::LinkView;
use crate::wire;

verus! {

/// Vendor request: tell the device our byte order.
pub const BREQ_HOST_FORMAT: u8 = 0;

/// Vendor request: set the nominal bit timing.
pub const BREQ_BITTIMING: u8 = 1;

/// Vendor request: start or stop the channel.
pub const BREQ_MODE: u8 = 2;

/// Vendor request: read the feature word and the timing limits.
pub const BREQ_BT_CONST: u8 = 4;

/// Vendor request: set the data-phase bit timing.
pub const BREQ_DATA_BITTIMING: u8 = 10;

/// The word that shows the device our byte order.
pub const HOST_FORMAT_MAGIC: u32 = 0x0000_beef;

/// Mode word: start the channel.
pub const MODE_START: u32 = 1;

/// Mode flag: receive only.
pub const MODE_LISTEN_ONLY: u32 = 1;

/// Mode flag: internal loopback.
pub const MODE_LOOP_BACK: u32 = 2;

/// Mode flag: stamp received frames.
pub const MODE_HW_TIMESTAMP: u32 = 0x10;

/// Mode flag: CAN-FD.
pub const MODE_FD: u32 = 0x100;

/// BT_CONST reply length: feature + fclk_can + 8 timing-limit words.
pub const BT_CONST_LEN: u16 = 40;

/// Address of the bulk endpoint that frames are read from.
pub const BULK_IN: u8 = 0x81;

/// Address of the bulk endpoint that frames are written to.
pub const BULK_OUT: u8 = 0x01;

/// A vendor control request that writes to interface 0.
#[derive(Debug)]
pub struct ControlOut {
    pub request: u8,
    pub value: u16,
    pub data: Vec<u8>,
}

/// A step that the caller performs.
#[derive(Debug)]
pub enum Action {
    /// Claim interface 0, detaching a kernel driver that holds it.
    Claim,
    /// Write a control request.
    Write(ControlOut),
    /// Read a control request.
    Read(ControlIn),
    /// Open the two bulk endpoints.
    OpenEndpoints { bulk_in: u8, bulk_out: u8 },
    /// Nothing is left to do: the channel is up.
    Finish,
    /// Nothing is left to do: a step failed.
    Abort,
}

/// The model of an [`Action`].
pub enum ActionView {
    Claim,
    Write { request: u8, value: u16, data: Seq<u8> },
    Read(ControlIn),
    OpenEndpoints { bulk_in: u8, bulk_out: u8 },
    Finish,
    Abort,
}

impl View for Action {
    type V = ActionView;

    open spec fn view(&self) -> ActionView {
        match *self {
            Action::Claim => ActionView::Claim,
            Action::Write(out) => ActionView::Write {
                request: out.request,
                value: out.value,
                data: out.data@,
            },
            Action::Read(request) => ActionView::Read(request),
            Action::OpenEndpoints { bulk_in, bulk_out } => ActionView::OpenEndpoints {
                bulk_in,
                bulk_out,
            },
            Action::Finish => ActionView::Finish,
            Action::Abort => ActionView::Abort,
        }
    }
}

/// What came of a step.
#[derive(Debug)]
pub enum Outcome {
    /// The step succeeded.
    Done,
    /// A read succeeded with these bytes.
    Reply(Vec<u8>),
    /// The step failed.
    Failed,
}

/// The model of an [`Outcome`].
pub enum OutcomeView {
    Done,
    Reply(Seq<u8>),
    Failed,
}

impl View for Outcome {
    type V = OutcomeView;

    open spec fn view(&self) -> OutcomeView {
        match *self {
            Outcome::Done => OutcomeView::Done,
            Outcome::Reply(bytes) => OutcomeView::Reply(bytes@),
            Outcome::Failed => OutcomeView::Failed,
        }
    }
}

/// How far a bring-up is.
#[derive(Debug, Clone, Copy, PartialEq, Eq, Structural)]
pub enum Stage {
    Claim,
    HostFormat,
    Probe,
    Nominal,
    DataPhase,
    Start,
    Endpoints,
    Ready,
    Aborted,
}

/// The model of a [`BringUp`].
pub struct BringUpView {
    pub config: GsUsbConfig,
    pub stage: Stage,
    pub features: u32,
}

/// The mode flags that a channel is started with.
pub open spec fn mode_flags(config: GsUsbConfig, hw_ts: bool) -> int {
    (if config.fd { 0x100int } else { 0 }) + (if config.listen_only { 1int } else { 0 }) + (
    if config.loopback { 2int } else { 0 }) + (if hw_ts { 0x10int } else { 0 })
}

/// The feature word that a probe gives: the first word of the reply, or none if
/// it fails or says too little.
pub open spec fn probed(outcome: OutcomeView) -> u32 {
    match outcome {
        OutcomeView::Reply(bytes) => if bytes.len() >= 4 {
            wire::le32(bytes, 0)
        } else {
            0
        },
        _ => 0,
    }
}

impl BringUpView {
    /// A bring-up that has not begun.
    pub open spec fn start(config: GsUsbConfig) -> BringUpView {
        BringUpView { config, stage: Stage::Claim, features: 0 }
    }

    /// Received frames will be stamped: asked for, and advertised.
    pub open spec fn hw_ts(self) -> bool {
        self.config.hw_timestamp && self.features & FEATURE_HW_TIMESTAMP != 0
    }

    /// The step to perform now.
    pub open spec fn action(self) -> ActionView {
        let value = self.config.channel;
        match self.stage {
            Stage::Claim => ActionView::Claim,
            Stage::HostFormat => ActionView::Write {
                request: BREQ_HOST_FORMAT,
                value: 1,
                data: wire::le32_bytes(HOST_FORMAT_MAGIC),
            },
            Stage::Probe => ActionView::Read(
                ControlIn { request: BREQ_BT_CONST, value, length: BT_CONST_LEN },
            ),
            Stage::Nominal => ActionView::Write {
                request: BREQ_BITTIMING,
                value,
                data: self.config.nominal.wire_bytes(),
            },
            Stage::DataPhase => ActionView::Write {
                request: BREQ_DATA_BITTIMING,
                value,
                data: self.config.data->0.wire_bytes(),
            },
            Stage::Start => ActionView::Write {
                request: BREQ_MODE,
                value,
                data: wire::le32_bytes(MODE_START) + wire::le32_bytes(
                    mode_flags(self.config, self.hw_ts()) as u32,
                ),
            },
            Stage::Endpoints => ActionView::OpenEndpoints {
                bulk_in: BULK_IN,
                bulk_out: BULK_OUT,
            },
            Stage::Ready => ActionView::Finish,
            Stage::Aborted => ActionView::Abort,
        }
    }

    /// The stage that follows a step that succeeded.
    pub open spec fn next_stage(self) -> Stage {
        match self.stage {
            Stage::Claim => Stage::HostFormat,
            Stage::HostFormat => Stage::Probe,
            Stage::Probe => Stage::Nominal,
            Stage::Nominal => if self.config.fd { Stage::DataPhase } else { Stage::Start },
            Stage::DataPhase => Stage::Start,
            Stage::Start => Stage::Endpoints,
            Stage::Endpoints => Stage::Ready,
            Stage::Ready => Stage::Ready,
            Stage::Aborted => Stage::Aborted,
        }
    }

    /// The bring-up after a step. A probe that fails, or says too little, leaves
    /// the device without optional features; any other failure ends it.
    pub open spec fn after(self, outcome: OutcomeView) -> BringUpView {
        if self.stage == Stage::Probe {
            BringUpView { stage: Stage::Nominal, features: probed(outcome), ..self }
        } else if outcome is Failed && self.stage != Stage::Ready {
            BringUpView { stage: Stage::Aborted, ..self }
        } else {
            BringUpView { stage: self.next_stage(), ..self }
        }
    }
}

/// A channel that is being brought up.
#[derive(Debug)]
pub struct BringUp {
    config: GsUsbConfig,
    stage: Stage,
    features: u32,
}

impl View for BringUp {
    type V = BringUpView;

    closed spec fn view(&self) -> BringUpView {
        BringUpView { config: self.config, stage: self.stage, features: self.features }
    }
}

impl BringUp {
    /// The data phase is only set up where the configuration has its timing.
    #[verifier::type_invariant]
    spec fn data_timing_present(self) -> bool {
        &&& self.config.fd ==> self.config.data is Some
        &&& self.stage == Stage::DataPhase ==> self.config.fd
    }

    /// Begins to bring up a channel. CAN-FD without a data bit timing is refused.
    pub fn new(config: GsUsbConfig) -> (r: Result<Self, CanIoError>)
        ensures
            !config.fd || config.data is Some ==> (r matches Ok(up) && up@ == BringUpView::start(
                config,
            )),
            config.fd && config.data is None ==> (r matches Err(CanIoError::Backend(message))
                && message@ == "fd = true requires a data bit timing"@),
    {
        if config.fd && config.data.is_none() {
            return Err(CanIoError::backend("fd = true requires a data bit timing".to_owned()));
        }
        Ok(BringUp { config, stage: Stage::Claim, features: 0 })
    }

    /// Hardware timestamps were requested and the device supports them.
    pub fn hw_ts(&self) -> (yes: bool)
        ensures
            yes == self@.hw_ts(),
    {
        self.config.hw_timestamp && (self.features & FEATURE_HW_TIMESTAMP != 0)
    }

    fn mode_word(&self) -> (flags: u32)
        ensures
            flags == mode_flags(self.config, self@.hw_ts()),
    {
        let fd: u32 = if self.config.fd { MODE_FD } else { 0 };
        let listen: u32 = if self.config.listen_only { MODE_LISTEN_ONLY } else { 0 };
        let loopback: u32 = if self.config.loopback { MODE_LOOP_BACK } else { 0 };
        let stamp: u32 = if self.hw_ts() { MODE_HW_TIMESTAMP } else { 0 };
        assert((fd == 0 || fd == 0x100) && (listen == 0 || listen == 1) && (loopback == 0
            || loopback == 2) && (stamp == 0 || stamp == 0x10) ==> fd | listen | loopback | stamp
            == fd + listen + loopback + stamp) by (bit_vector);
        fd | listen | loopback | stamp
    }

    /// The step to perform now.
    pub fn action(&self) -> (action: Action)
        ensures
            action@ == self@.action(),
            action matches Action::Write(out) ==> self@.action() == (ActionView::Write {
                request: out.request,
                value: out.value,
                data: out.data@,
            }),
    {
        proof {
            use_type_invariant(self);
        }
        let value: u16 = self.config.channel;
        match self.stage {
            Stage::Claim => Action::Claim,
            Stage::HostFormat => {
                let mut data: Vec<u8> = Vec::new();
                wire::push_le32(&mut data, HOST_FORMAT_MAGIC);
                Action::Write(ControlOut { request: BREQ_HOST_FORMAT, value: 1, data })
            },
            Stage::Probe => Action::Read(
                ControlIn { request: BREQ_BT_CONST, value, length: BT_CONST_LEN },
            ),
            Stage::Nominal => {
                let data = slice_to_vec(self.config.nominal.to_bytes().as_slice());
                Action::Write(ControlOut { request: BREQ_BITTIMING, value, data })
            },
            Stage::DataPhase => {
                let timing = self.config.data.unwrap();
                let data = slice_to_vec(timing.to_bytes().as_slice());
                Action::Write(ControlOut { request: BREQ_DATA_BITTIMING, value, data })
            },
            Stage::Start => {
                let mut data: Vec<u8> = Vec::new();
                wire::push_le32(&mut data, MODE_START);
                wire::push_le32(&mut data, self.mode_word());
                Action::Write(ControlOut { request: BREQ_MODE, value, data })
            },
            Stage::Endpoints => Action::OpenEndpoints { bulk_in: BULK_IN, bulk_out: BULK_OUT },
            Stage::Ready => Action::Finish,
            Stage::Aborted => Action::Abort,
        }
    }

    /// Takes what came of the step that [`BringUp::action`] named.
    pub fn advance(&mut self, outcome: Outcome)
        ensures
            final(self)@ == old(self)@.after(outcome@),
            final(self)@.config == old(self)@.config,
            old(self)@.stage == Stage::Probe ==> final(self)@.features == match outcome {
                Outcome::Reply(reply) => if reply@.len() >= 4 {
                    reply@[0] + 0x100 * reply@[1] + 0x1_0000 * reply@[2] + 0x100_0000 * reply@[3]
                } else {
                    0
                },
                _ => 0,
            },
            old(self)@.stage != Stage::Probe ==> final(self)@.features == old(self)@.features,
    {
        proof {
            use_type_invariant(&*self);
        }
        let config = self.config;
        let features: u32 = if matches!(self.stage, Stage::Probe) {
            match &outcome {
                Outcome::Reply(bytes) => if bytes.len() >= 4 {
                    wire::read_le32(bytes.as_slice(), 0)
                } else {
                    0
                },
                _ => 0,
            }
        } else {
            self.features
        };
        let failed = matches!(outcome, Outcome::Failed);
        let stage = match self.stage {
            Stage::Probe => Stage::Nominal,
            Stage::Ready => Stage::Ready,
            _ if failed => Stage::Aborted,
            Stage::Claim => Stage::HostFormat,
            Stage::HostFormat => Stage::Probe,
            Stage::Nominal => if config.fd { Stage::DataPhase } else { Stage::Start },
            Stage::DataPhase => Stage::Start,
            Stage::Start => Stage::Endpoints,
            Stage::Endpoints => Stage::Ready,
            Stage::Aborted => Stage::Aborted,
        };
        *self = BringUp { config, stage, features };
    }

    /// The channel, once it is up.
    pub fn bus(&self) -> (r: Option<GsUsbBus>)
        ensures
            r is Some <==> self@.stage == Stage::Ready,
            r matches Some(bus) ==> bus@ == (LinkView {
                fd: self@.config.fd,
                channel: self@.config.channel,
                features: self@.features,
                hw_ts: self@.hw_ts(),
                sent: 0,
            }),
    {
        if matches!(self.stage, Stage::Ready) {
            Some(
                GsUsbBus::started(
                    self.config.fd,
                    self.config.channel,
                    self.features,
                    self.hw_ts(),
                ),
            )
        } else {
            None
        }
    }
}

/// The steps of a bring-up in which nothing fails but perhaps the probe, in
/// their order, on a device whose probe gives `features`.
pub open spec fn plan(config: GsUsbConfig, features: u32) -> Seq<ActionView> {
    let up = |stage: Stage| BringUpView { config, stage, features };
    let timing = if config.fd {
        seq![up(Stage::Nominal).action(), up(Stage::DataPhase).action()]
    } else {
        seq![up(Stage::Nominal).action()]
    };
    seq![
        up(Stage::Claim).action(),
        up(Stage::HostFormat).action(),
        up(Stage::Probe).action(),
    ] + timing + seq![up(Stage::Start).action(), up(Stage::Endpoints).action()]
}

/// A bring-up after `n` steps: the probe came to `probe`, and no other step
/// failed.
pub open spec fn after_steps(config: GsUsbConfig, probe: OutcomeView, n: nat) -> BringUpView
    decreases n,
{
    if n == 0 {
        BringUpView::start(config)
    } else {
        let before = after_steps(config, probe, (n - 1) as nat);
        before.after(
            if before.stage == Stage::Probe {
                probe
            } else {
                OutcomeView::Done
            },
        )
    }
}

/// Whatever the probe comes to, where nothing else fails the steps are those of
/// the plan, each once and in its order, and after the last one the channel is
/// up.
pub proof fn law_bring_up_follows_the_plan(config: GsUsbConfig, probe: OutcomeView)
    ensures
        ({
            let steps = plan(config, probed(probe));
            &&& forall|n: int|
                0 <= n < steps.len() ==> after_steps(config, probe, n as nat).action()
                    == #[trigger] steps[n]
            &&& after_steps(config, probe, steps.len()) == (BringUpView {
                config,
                stage: Stage::Ready,
                features: probed(probe),
            })
        }),
{
    reveal_with_fuel(after_steps, 8);
}

/// No optional feature is assumed of a device whose probe fails or says too
/// little: the bring-up goes on without timestamps.
pub proof fn law_failed_probe_assumes_no_features(up: BringUpView, outcome: OutcomeView)
    requires
        up.stage == Stage::Probe,
        outcome matches OutcomeView::Reply(bytes) ==> bytes.len() < 4,
    ensures
        up.after(outcome).stage == Stage::Nominal,
        up.after(outcome).features == 0,
        !up.after(outcome).hw_ts(),
{
    assert(0u32 & 0x10 == 0) by (bit_vector);
}

/// Any other failure ends the bring-up for good: whatever comes after it,
/// nothing more is asked of the device.
pub proof fn law_failure_ends_the_bring_up(up: BringUpView, later: OutcomeView)
    requires
        up.stage != Stage::Probe,
        up.stage != Stage::Ready,
    ensures
        up.after(OutcomeView::Failed).action() is Abort,
        up.after(OutcomeView::Failed).after(later) == up.after(OutcomeView::Failed),
{
}

/// The feature word is the first four bytes of the probe's reply, low byte first,
/// however long the reply is beyond them; what comes after them does not count.
pub proof fn law_features_are_the_first_word(up: BringUpView, reply: Seq<u8>, longer: Seq<u8>)
    requires
        up.stage == Stage::Probe,
        reply.len() >= 4,
    ensures
        ({
            let features = up.after(OutcomeView::Reply(reply)).features;
            &&& features & 0xFF == reply[0]
            &&& (features >> 8) & 0xFF == reply[1]
            &&& (features >> 16) & 0xFF == reply[2]
            &&& features >> 24 == reply[3]
        }),
        up.after(OutcomeView::Reply(reply + longer)) == up.after(OutcomeView::Reply(reply)),
        up.after(OutcomeView::Reply(reply)).stage == Stage::Nominal,
        up.after(OutcomeView::Reply(reply)).config == up.config,
        up.after(OutcomeView::Reply(reply)).hw_ts() <==> up.config.hw_timestamp && reply[0] & 0x10
            != 0,
{
    wire::law_read_least_significant_first(reply, 0);
    wire::law_word_rests_on_its_bytes(reply, reply + longer, 0, 0);
    let features = wire::le32(reply, 0);
    let low = reply[0];
    assert((features & 0x10 != 0) == (low & 0x10 != 0)) by (bit_vector)
        requires
            features & 0xFF == low,
    ;
}

/// The mode word has a bit for each thing that was asked for, 0x100 for CAN-FD, 1
/// for listen-only, 2 for loopback, 0x10 for timestamps, and no other.
pub proof fn law_mode_word_bits(config: GsUsbConfig, hw_ts: bool)
    ensures
        ({
            let flags = mode_flags(config, hw_ts) as u32;
            &&& (flags & 0x100 != 0) == config.fd
            &&& (flags & 1 != 0) == config.listen_only
            &&& (flags & 2 != 0) == config.loopback
            &&& (flags & 0x10 != 0) == hw_ts
            &&& flags & 0xFFFF_FEEC == 0
        }),
{
    let fd: u32 = if config.fd { 0x100 } else { 0 };
    let listen: u32 = if config.listen_only { 1 } else { 0 };
    let loopback: u32 = if config.loopback { 2 } else { 0 };
    let stamp: u32 = if hw_ts { 0x10 } else { 0 };
    let flags = mode_flags(config, hw_ts) as u32;
    assert((flags & 0x100 != 0) == (fd != 0) && (flags & 1 != 0) == (listen != 0) && (flags & 2
        != 0) == (loopback != 0) && (flags & 0x10 != 0) == (stamp != 0) && flags & 0xFFFF_FEEC == 0)
        by (bit_vector)
        requires
            fd == 0 || fd == 0x100,
            listen == 0 || listen == 1,
            loopback == 0 || loopback == 2,
            stamp == 0 || stamp == 0x10,
            flags == fd + listen + loopback + stamp,
    ;
}

/// The requests of a bring-up, one after the other, with their numbers: claim the
/// interface; byte order (request 0, value 1, the word 0xBEEF); probe (request 4,
/// 40 bytes); nominal timing (request 1); with CAN-FD, data timing (request 10);
/// mode; endpoints 0x81 and 0x01. All but the byte order carry the channel as
/// their value.
pub proof fn law_requests_of_a_bring_up(config: GsUsbConfig, probe: OutcomeView)
    ensures
        ({
            let claim = BringUpView::start(config);
            let order = claim.after(OutcomeView::Done);
            let ask = order.after(OutcomeView::Done);
            let nominal = ask.after(probe);
            let data = nominal.after(OutcomeView::Done);
            let start = if config.fd {
                data.after(OutcomeView::Done)
            } else {
                data
            };
            let endpoints = start.after(OutcomeView::Done);
            let ready = endpoints.after(OutcomeView::Done);
            let value = config.channel;
            &&& claim.action() is Claim
            &&& order.action() == (ActionView::Write {
                request: 0,
                value: 1,
                data: seq![0xEFu8, 0xBE, 0, 0],
            })
            &&& ask.action() == ActionView::Read(ControlIn { request: 4, value, length: 40 })
            &&& nominal.action() == (ActionView::Write {
                request: 1,
                value,
                data: config.nominal.wire_bytes(),
            })
            &&& config.fd ==> data.action() == (ActionView::Write {
                request: 10,
                value,
                data: config.data->0.wire_bytes(),
            })
            &&& start == (BringUpView { config, stage: Stage::Start, features: nominal.features })
            &&& endpoints.action() == (ActionView::OpenEndpoints { bulk_in: 0x81, bulk_out: 0x01 })
            &&& ready.action() is Finish
            &&& ready.stage == Stage::Ready
            &&& ready.config == config
            &&& ready.features == nominal.features
        }),
{
    assert(wire::le32_bytes(0xBEEF) =~= seq![0xEFu8, 0xBE, 0, 0]);
}

/// The mode request: the word 1, then the flags, in which every thing that was
/// asked for has its bit; timestamps have theirs where the device offers them too.
pub proof fn law_mode_request_by_its_bytes(up: BringUpView)
    requires
        up.stage == Stage::Start,
    ensures
        ({
            let hw_ts = up.config.hw_timestamp && up.features & 0x10 != 0;
            &&& up.action() matches ActionView::Write { request, value, data }
            &&& request == 2
            &&& value == up.config.channel
            &&& data.len() == 8
            &&& data.take(4) == seq![1u8, 0, 0, 0]
            &&& data[4] == (if up.config.listen_only {
                1int
            } else {
                0
            }) + (if up.config.loopback {
                2int
            } else {
                0
            }) + (if hw_ts {
                0x10int
            } else {
                0
            })
            &&& data[5] == if up.config.fd {
                1int
            } else {
                0
            }
            &&& data[6] == 0
            &&& data[7] == 0
        }),
{
}

/// A step that fails, other than the probe, ends the bring-up at once, at every
/// stage: nothing more is asked of the device, and there is no channel.
pub proof fn law_no_failure_is_passed_over(up: BringUpView, later: OutcomeView)
    ensures
        up.stage != Stage::Probe && up.stage != Stage::Ready ==> up.after(
            OutcomeView::Failed,
        ).stage == Stage::Aborted,
        up.stage == Stage::Aborted ==> up.action() is Abort && up.after(later).stage
            == Stage::Aborted,
        up.stage == Stage::Ready ==> up.action() is Finish && up.after(later) == up,
        up.stage == Stage::Probe ==> up.after(later).stage == Stage::Nominal,
        up.after(later).config == up.config,
        up.stage != Stage::Probe ==> up.after(later).features == up.features,
{
}

/// The models of actions and outcomes hold all that they say.
pub proof fn law_models_leave_nothing_out(
    out: ControlOut,
    request: ControlIn,
    reply: Vec<u8>,
    bulk_in: u8,
    bulk_out: u8,
)
    ensures
        (Action::OpenEndpoints { bulk_in, bulk_out })@ == (ActionView::OpenEndpoints {
            bulk_in,
            bulk_out,
        }),
        Action::Write(out)@ == (ActionView::Write {
            request: out.request,
            value: out.value,
            data: out.data@,
        }),
        Action::Read(request)@ == ActionView::Read(request),
        Action::Claim@ is Claim,
        Action::Finish@ is Finish,
        Action::Abort@ is Abort,
        Outcome::Reply(reply)@ == OutcomeView::Reply(reply@),
        Outcome::Done@ is Done,
        Outcome::Failed@ is Failed,
{
}

/// Frames are stamped exactly where it was asked for and bit 4 of the feature word
/// is set, whatever the other bits.
pub proof fn law_timestamps_need_both_sides(up: BringUpView)
    ensures
        up.hw_ts() <==> up.config.hw_timestamp && (up.features >> 4) % 2 == 1,
{
    let features = up.features;
    assert((features & 0x10 != 0) == ((features >> 4) % 2 == 1)) by (bit_vector);
}

} // verus!
