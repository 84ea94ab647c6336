//! Decisions about the radio that both firmwares share: settings, and what came of a reception or a
//! transmission.

use vstd::prelude::*;

use crate::uwb::calibration_packet::CalibrationPacket;
use crate::uwb::fingerprint;
use crate::uwb::fingerprint::PHY_FINGERPRINT;
use crate::uwb::packet::Packet;
use crate::uwb::schedule::TICKS_PER_US;
use crate::uwb::time;
use crate::uwb::time::elapsed;

verus! {

/// Receive- and transmit-path antenna delays, in radio clock ticks.
#[derive(Clone, Copy, Debug, PartialEq, Eq, Structural)]
pub struct AntennaDelay {
    pub rx: u16,
    pub tx: u16,
}

impl AntennaDelay {
    /// The nominal value for the 64 MHz PRF configuration, applied to both paths.
    ///
    /// A starting point, not a calibration: it leaves a constant bias of up to a few tens of
    /// centimetres.
    pub fn nominal() -> (delay: AntennaDelay)
        ensures
            delay == (AntennaDelay { rx: 16_385, tx: 16_385 }),
    {
        AntennaDelay { rx: 16_385, tx: 16_385 }
    }
}

/// The physical-layer settings every node of the network shares.
///
/// Nodes that disagree on these never decode each other's frames.
#[derive(Clone, Copy, Debug, PartialEq, Eq, Structural)]
pub struct RadioSettings {
    pub channel: u32,
    pub prf_mhz: u32,
    pub preamble_symbols: u32,
    pub bitrate_kbps: u32,
    pub preamble_code: u32,
    /// 0 for the IEEE short start-of-frame delimiter.
    pub sfd: u32,
    /// 0 for no scrambled timestamp sequence.
    pub sts: u32,
    pub pac_symbols: u32,
    /// Off: addressing is checked in software against the payload IDs.
    pub frame_filtering: bool,
    /// Sets the ranging bit of transmitted frames.
    pub ranging_enable: bool,
}

impl RadioSettings {
    /// The settings an antenna-delay calibration depends on, in fingerprint order.
    pub open spec fn words(self) -> Seq<u32> {
        seq![
            self.channel,
            self.prf_mhz,
            self.preamble_symbols,
            self.bitrate_kbps,
            self.preamble_code,
            self.sfd,
            self.sts,
            self.pac_symbols,
        ]
    }
}

/// The settings in use. They are the ones `PHY_FINGERPRINT` stands for.
pub fn radio_config() -> (settings: RadioSettings)
    ensures
        settings.words() == fingerprint::phy_words(),
        fingerprint::fnv_words(fingerprint::FNV_OFFSET, settings.words()) == PHY_FINGERPRINT,
        !settings.frame_filtering,
        settings.ranging_enable,
{
    let settings = RadioSettings {
        channel: 5,
        prf_mhz: 64,
        preamble_symbols: 128,
        bitrate_kbps: 6_800,
        preamble_code: 9,
        sfd: 0,
        sts: 0,
        pac_symbols: 8,
        frame_filtering: false,
        ranging_enable: true,
    };
    proof {
        fingerprint::phy_fingerprint_is_current();
        assert(settings.words() =~= fingerprint::phy_words());
    }
    settings
}

/// The receive-error flags of the radio's status register.
#[derive(Clone, Copy, Debug, PartialEq, Eq, Structural)]
pub struct RxFlags {
    /// PHY header error.
    pub rxphe: bool,
    /// Frame check sequence error.
    pub rxfce: bool,
    /// Reed-Solomon decoder lost synchronization.
    pub rxfsl: bool,
    /// Start-of-frame delimiter timeout.
    pub rxsto: bool,
    /// Preamble detection timeout.
    pub rxpto: bool,
    /// Frame wait timeout.
    pub rxfto: bool,
    /// Receiver overrun.
    pub rxovrr: bool,
}

impl RxFlags {
    /// The name of the first flag set, in order of diagnostic value.
    pub open spec fn first(self) -> Option<Seq<char>> {
        if self.rxphe {
            Some("PHY header error"@)
        } else if self.rxfce {
            Some("FCS error"@)
        } else if self.rxfsl {
            Some("Reed-Solomon sync loss"@)
        } else if self.rxsto {
            Some("SFD timeout"@)
        } else if self.rxpto {
            Some("preamble timeout"@)
        } else if self.rxfto {
            Some("frame wait timeout"@)
        } else if self.rxovrr {
            Some("receiver overrun"@)
        } else {
            None
        }
    }
}

/// The text of an optional reason.
pub open spec fn text(reason: Option<&'static str>) -> Option<Seq<char>> {
    match reason {
        Some(reason) => Some(reason@),
        None => None,
    }
}

/// Names the receive event found latched in the status register.
///
/// `flags` is what the register held, `None` if it could not be read. `cleared` says whether the
/// receive events could be cleared afterwards; a latched one that is not would keep the interrupt
/// line asserted and the node deaf, so that failure takes precedence.
pub fn take_rx_error(flags: Option<RxFlags>, cleared: bool) -> (reason: Option<&'static str>)
    ensures
        text(reason) == (if !cleared {
            Some("SYS_STATUS clear failed"@)
        } else {
            match flags {
                Some(flags) => flags.first(),
                None => Some("SYS_STATUS read failed"@),
            }
        }),
{
    if !cleared {
        return Some("SYS_STATUS clear failed");
    }
    let flags = match flags {
        Some(flags) => flags,
        None => {
            return Some("SYS_STATUS read failed");
        },
    };
    if flags.rxphe {
        Some("PHY header error")
    } else if flags.rxfce {
        Some("FCS error")
    } else if flags.rxfsl {
        Some("Reed-Solomon sync loss")
    } else if flags.rxsto {
        Some("SFD timeout")
    } else if flags.rxpto {
        Some("preamble timeout")
    } else if flags.rxfto {
        Some("frame wait timeout")
    } else if flags.rxovrr {
        Some("receiver overrun")
    } else {
        None
    }
}

/// How waiting for the radio's interrupt line ended.
#[derive(Clone, Copy, Debug, PartialEq, Eq, Structural)]
pub enum Edge {
    /// A rising edge arrived.
    Fired,
    /// The interrupt pin itself reported an error.
    PinError,
    /// None arrived before the deadline.
    TimedOut,
}

/// Why a receive produced no packet. All are routine on a shared medium.
#[derive(Clone, Copy, Debug, PartialEq, Eq)]
pub enum RxMiss {
    /// No interrupt before the deadline. `latched` names whatever receive flag was found
    /// afterwards.
    Timeout { latched: Option<&'static str> },
    /// The interrupt fired but the frame did not survive. `latched` names the flag reported.
    Radio { latched: Option<&'static str> },
    /// A frame arrived intact, but its payload is not this protocol's.
    Undecodable { payload_len: usize },
    /// The interrupt pin itself reported an error while being waited on.
    Irq,
}

/// Why a transmit was not confirmed.
#[derive(Clone, Copy, Debug, PartialEq, Eq, Structural)]
pub enum TxMiss {
    /// No confirmation before the deadline. Also the symptom of a delayed send whose instant had
    /// already passed when it was programmed.
    Timeout,
    /// The radio rejected the frame after the interrupt fired.
    Rejected,
    /// The interrupt pin itself reported an error while being waited on.
    Irq,
}

/// What the radio handed back for a reception, if it could be read out.
#[derive(Clone, Copy, Debug, PartialEq, Eq)]
pub struct Frame<'a> {
    /// The frame's payload, if the frame has one.
    pub payload: Option<&'a [u8]>,
    /// The hardware receive timestamp.
    pub rx_ticks: u64,
}

/// Why a reception gives no frame to decode, or the frame's payload length where the payload is
/// foreign.
pub open spec fn miss(
    edge: Edge,
    frame: Option<Frame>,
    latched: Option<&'static str>,
) -> RxMiss {
    match edge {
        Edge::PinError => RxMiss::Irq,
        Edge::TimedOut => RxMiss::Timeout { latched },
        Edge::Fired => match frame {
            None => RxMiss::Radio { latched },
            Some(frame) => RxMiss::Undecodable {
                payload_len: match frame.payload {
                    Some(payload) => payload@.len() as usize,
                    None => 0,
                },
            },
        },
    }
}

/// The payload of a reception that succeeded.
pub open spec fn arrived(edge: Edge, frame: Option<Frame>) -> Option<Seq<u8>> {
    match (edge, frame) {
        (Edge::Fired, Some(Frame { payload: Some(payload), .. })) => Some(payload@),
        _ => None,
    }
}

/// What came of listening for a frame of the ranging schedule.
///
/// `frame` is what was read out after the interrupt fired, and `latched` the receive flag found
/// while releasing the interrupt line afterwards.
pub fn receive_packet(edge: Edge, frame: Option<Frame>, latched: Option<&'static str>) -> (outcome:
    Result<(Packet, u64), RxMiss>)
    ensures
        outcome == (match arrived(edge, frame) {
            Some(payload) => match Packet::parse(payload) {
                Ok(packet) => Ok((packet, frame->0.rx_ticks)),
                Err(_) => Err(miss(edge, frame, latched)),
            },
            None => Err(miss(edge, frame, latched)),
        }),
{
    match edge {
        Edge::PinError => Err(RxMiss::Irq),
        Edge::TimedOut => Err(RxMiss::Timeout { latched }),
        Edge::Fired => match frame {
            None => Err(RxMiss::Radio { latched }),
            Some(frame) => match frame.payload {
                None => Err(RxMiss::Undecodable { payload_len: 0 }),
                Some(payload) => match Packet::decode(payload) {
                    Ok(packet) => Ok((packet, frame.rx_ticks)),
                    Err(_) => Err(RxMiss::Undecodable { payload_len: payload.len() }),
                },
            },
        },
    }
}

/// What came of listening for a frame of the calibration fixture.
pub fn receive_calibration_packet(
    edge: Edge,
    frame: Option<Frame>,
    latched: Option<&'static str>,
) -> (outcome: Result<(CalibrationPacket, u64), RxMiss>)
    ensures
        outcome == (match arrived(edge, frame) {
            Some(payload) => match CalibrationPacket::parse(payload) {
                Ok(packet) => Ok((packet, frame->0.rx_ticks)),
                Err(_) => Err(miss(edge, frame, latched)),
            },
            None => Err(miss(edge, frame, latched)),
        }),
{
    match edge {
        Edge::PinError => Err(RxMiss::Irq),
        Edge::TimedOut => Err(RxMiss::Timeout { latched }),
        Edge::Fired => match frame {
            None => Err(RxMiss::Radio { latched }),
            Some(frame) => match frame.payload {
                None => Err(RxMiss::Undecodable { payload_len: 0 }),
                Some(payload) => match CalibrationPacket::decode(payload) {
                    Ok(packet) => Ok((packet, frame.rx_ticks)),
                    Err(_) => Err(RxMiss::Undecodable { payload_len: payload.len() }),
                },
            },
        },
    }
}

/// What came of sending a frame. `confirmed` is the transmit timestamp read out after the interrupt
/// fired, `None` if the radio rejected the frame.
pub fn send_packet(edge: Edge, confirmed: Option<u64>) -> (outcome: Result<u64, TxMiss>)
    ensures
        outcome == (match edge {
            Edge::Fired => match confirmed {
                Some(ticks) => Ok(ticks),
                None => Err(TxMiss::Rejected),
            },
            Edge::PinError => Err(TxMiss::Irq),
            Edge::TimedOut => Err(TxMiss::Timeout),
        }),
{
    match edge {
        Edge::Fired => match confirmed {
            Some(ticks) => Ok(ticks),
            None => Err(TxMiss::Rejected),
        },
        Edge::PinError => Err(TxMiss::Irq),
        Edge::TimedOut => Err(TxMiss::Timeout),
    }
}

/// Whole microseconds of radio time from `since_ticks` to `now_ticks`.
pub fn elapsed_since_us(now_ticks: u64, since_ticks: u64) -> (us: u32)
    ensures
        us == time::ticks_between(now_ticks as int, since_ticks as int) / (TICKS_PER_US as int),
{
    let ticks: u64 = elapsed(now_ticks, since_ticks);
    (ticks / TICKS_PER_US) as u32
}

/// The radio's current time on the 40-bit tick scale, from the value of its time register.
///
/// The register exposes only the top 32 bits of the counter.
pub fn sys_time_ticks(register: u32) -> (ticks: u64)
    ensures
        ticks == register * 256,
        ticks < crate::uwb::bytes::TIME_MODULUS,
{
    let wide: u64 = register as u64;
    assert(wide << 8 == wide * 256) by (bit_vector)
        requires
            wide <= 0xFFFF_FFFF,
    ;
    wide << 8
}

/// The flag named is one that is set, and the most telling of those: errors in a frame that arrived
/// before time-outs, and those before an overrun. Without a flag there is nothing to name.
pub proof fn the_most_telling_flag_is_named(flags: RxFlags, reason: &'static str)
    ensures
        text(Some(reason)) == Some(reason@) && text(None) is None,
        flags.rxphe ==> flags.first() == Some("PHY header error"@),
        !flags.rxphe && flags.rxfce ==> flags.first() == Some("FCS error"@),
        !flags.rxphe && !flags.rxfce && flags.rxfsl ==> flags.first() == Some(
            "Reed-Solomon sync loss"@,
        ),
        !flags.rxphe && !flags.rxfce && !flags.rxfsl ==> {
            &&& flags.rxsto ==> flags.first() == Some("SFD timeout"@)
            &&& !flags.rxsto && flags.rxpto ==> flags.first() == Some("preamble timeout"@)
            &&& !flags.rxsto && !flags.rxpto && flags.rxfto ==> flags.first() == Some(
                "frame wait timeout"@,
            )
            &&& !flags.rxsto && !flags.rxpto && !flags.rxfto && flags.rxovrr ==> flags.first()
                == Some("receiver overrun"@)
            &&& !flags.rxsto && !flags.rxpto && !flags.rxfto && !flags.rxovrr
                <==> flags.first() is None
        },
{
}

/// A payload has arrived exactly if the interrupt fired and a frame with one was read out, and it
/// is that frame's. Otherwise the miss tells why: the pin, the clock, the radio, or the frame.
pub proof fn misses_tell_why(edge: Edge, frame: Option<Frame>, latched: Option<&'static str>)
    ensures
        arrived(edge, frame) is Some <==> edge is Fired && frame is Some
            && frame->0.payload is Some,
        arrived(edge, frame) is Some ==> arrived(edge, frame)->0 == frame->0.payload->0@,
        edge is PinError <==> miss(edge, frame, latched) is Irq,
        edge is TimedOut <==> miss(edge, frame, latched) is Timeout,
        edge is Fired && frame is None <==> miss(edge, frame, latched) is Radio,
        edge is TimedOut ==> miss(edge, frame, latched) == (RxMiss::Timeout { latched }),
        edge is Fired && frame is None ==> miss(edge, frame, latched) == (RxMiss::Radio {
            latched,
        }),
        edge is Fired && frame is Some && frame->0.payload is None ==> miss(edge, frame, latched)
            == (RxMiss::Undecodable { payload_len: 0 }),
        edge is Fired && frame is Some && frame->0.payload is Some ==> miss(edge, frame, latched)
            == (RxMiss::Undecodable { payload_len: frame->0.payload->0@.len() as usize }),
{
}

/// The words a fingerprint covers are the settings themselves, in their order: settings that differ
/// in one of them differ in the words.
pub proof fn words_tell_settings_apart(a: RadioSettings, b: RadioSettings)
    requires
        a.words() == b.words(),
        a.frame_filtering == b.frame_filtering,
        a.ranging_enable == b.ranging_enable,
    ensures
        a == b,
        a.words()[0] == a.channel && a.words()[1] == a.prf_mhz && a.words()[2]
            == a.preamble_symbols && a.words()[3] == a.bitrate_kbps && a.words()[4]
            == a.preamble_code && a.words()[5] == a.sfd && a.words()[6] == a.sts && a.words()[7]
            == a.pac_symbols,
{
    let (x, y) = (a.words(), b.words());
    assert(x[0] == y[0] && x[1] == y[1] && x[2] == y[2] && x[3] == y[3] && x[4] == y[4] && x[5]
        == y[5] && x[6] == y[6] && x[7] == y[7]);
}

} // verus!
