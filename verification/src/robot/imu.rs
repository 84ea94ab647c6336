//! The nine-axis inertial stack: register programs and the decoding of raw samples.
//!
//! A BMI270 provides the accelerometer and the gyroscope, an MMC5983MA the magnetometer; both sit
//! on the same bus.

use vstd::prelude::*;

verus! {

/// The address the BMI270 answers on with its address pin low.
pub const ADDRESS_PRIMARY: u8 = 0x68;

/// The address it answers on with its address pin high.
pub const ADDRESS_SECONDARY: u8 = 0x69;

/// What the BMI270's chip ID register reads.
pub const CHIP_ID: u8 = 0x24;

/// Register that holds the chip ID.
pub const REGISTER_CHIP_ID: u8 = 0x00;

/// First register of a sample burst.
pub const REGISTER_DATA_8: u8 = 0x0C;

/// Register that reports how the feature-engine upload went.
pub const REGISTER_INTERNAL_STATUS: u8 = 0x21;

/// Register the feature-engine image is written to.
pub const REGISTER_INIT_DATA: u8 = 0x5E;

/// Registers that take the low and the high part of the image's write pointer.
pub const REGISTER_INIT_ADDR_0: u8 = 0x5B;

pub const REGISTER_INIT_ADDR_1: u8 = 0x5C;

/// Bytes of the feature-engine image pushed per burst.
pub const CONFIG_CHUNK: usize = 128;

/// Bytes of a sample burst: twelve of data, then status registers, then the temperature.
pub const BURST_LEN: usize = 24;

/// Offset of the temperature within that burst.
pub const TEMPERATURE_OFFSET: usize = 22;

/// What the temperature reads while there is no valid measurement.
pub const TEMPERATURE_INVALID: i16 = -32768;

/// Bus address of the MMC5983MA, and what its product ID register reads.
pub const MAGNETOMETER_ADDRESS: u8 = 0x30;

pub const PRODUCT_ID: u8 = 0x30;

/// Register that holds the product ID.
pub const REGISTER_PRODUCT_ID: u8 = 0x2F;

/// First register of a measurement burst.
pub const REGISTER_X_OUT_0: u8 = 0x00;

/// Bytes of a measurement burst.
pub const MAGNETOMETER_BURST_LEN: usize = 7;

/// Why the accelerometer and gyroscope could not be used.
#[derive(Debug, PartialEq, Eq)]
pub enum Bmi270Error<E> {
    Bus(E),
    /// Nothing answered on either of the part's two addresses.
    NotFound,
    /// Something answered but did not identify as a BMI270.
    WrongChipId(u8),
    /// The feature-engine upload did not take; carries the status.
    InitFailed(u8),
}

/// Why the magnetometer could not be used.
#[derive(Debug, PartialEq, Eq)]
pub enum Mmc5983maError<E> {
    Bus(E),
    /// Something answered at the part's address but did not identify as an MMC5983MA.
    WrongProductId(u8),
}

/// Which half of the stack failed.
#[derive(Debug, PartialEq, Eq)]
pub enum ImuError<E> {
    /// The accelerometer/gyroscope half failed.
    Inertial(Bmi270Error<E>),
    /// The magnetometer half failed.
    Magnetic(Mmc5983maError<E>),
}

impl<E> From<Bmi270Error<E>> for ImuError<E> {
    fn from(error: Bmi270Error<E>) -> (wrapped: Self) {
        ImuError::Inertial(error)
    }
}

impl<E> vstd::std_specs::convert::FromSpecImpl<Bmi270Error<E>> for ImuError<E> {
    open spec fn obeys_from_spec() -> bool {
        true
    }

    open spec fn from_spec(error: Bmi270Error<E>) -> Self {
        ImuError::Inertial(error)
    }
}

impl<E> From<Mmc5983maError<E>> for ImuError<E> {
    fn from(error: Mmc5983maError<E>) -> (wrapped: Self) {
        ImuError::Magnetic(error)
    }
}

impl<E> vstd::std_specs::convert::FromSpecImpl<Mmc5983maError<E>> for ImuError<E> {
    open spec fn obeys_from_spec() -> bool {
        true
    }

    open spec fn from_spec(error: Mmc5983maError<E>) -> Self {
        ImuError::Magnetic(error)
    }
}

/// A BMI270 on a bus.
#[derive(Debug)]
pub struct Bmi270<I2C> {
    pub i2c: I2C,
    /// Settled by probing; the value before that is only a starting guess.
    pub address: u8,
}

impl<I2C> Bmi270<I2C> {
    /// A part that has not been located yet.
    pub fn new(i2c: I2C) -> (part: Bmi270<I2C>)
        ensures
            part == (Bmi270 { i2c, address: ADDRESS_PRIMARY }),
    {
        Bmi270 { i2c, address: ADDRESS_PRIMARY }
    }
}

/// An MMC5983MA on a bus.
#[derive(Debug)]
pub struct Mmc5983ma<I2C> {
    pub i2c: I2C,
}

impl<I2C> Mmc5983ma<I2C> {
    /// The part on a bus.
    pub fn new(i2c: I2C) -> (part: Mmc5983ma<I2C>)
        ensures
            part == (Mmc5983ma { i2c }),
    {
        Mmc5983ma { i2c }
    }
}

/// The two parts as one sensor.
#[derive(Debug)]
pub struct Imu9Axis<I2C> {
    pub inertial: Bmi270<I2C>,
    pub magnetic: Mmc5983ma<I2C>,
}

impl<I2C> Imu9Axis<I2C> {
    /// Takes one bus handle per part: the two are addressed independently.
    pub fn new(inertial_bus: I2C, magnetic_bus: I2C) -> (imu: Imu9Axis<I2C>)
        ensures
            imu == (Imu9Axis {
                inertial: Bmi270 { i2c: inertial_bus, address: ADDRESS_PRIMARY },
                magnetic: Mmc5983ma { i2c: magnetic_bus },
            }),
    {
        Imu9Axis { inertial: Bmi270::new(inertial_bus), magnetic: Mmc5983ma::new(magnetic_bus) }
    }
}

/// Finds which of its two addresses the BMI270 sits on, from what answered there as a chip ID.
///
/// An address where nothing answers is passed over. Something answering with the wrong ID is a
/// different failure from nothing answering at all.
pub fn probe<E>(primary: Option<u8>, secondary: Option<u8>) -> (address: Result<u8, Bmi270Error<E>>)
    ensures
        address == (if primary == Some(CHIP_ID) {
            Ok(ADDRESS_PRIMARY)
        } else if secondary == Some(CHIP_ID) {
            Ok(ADDRESS_SECONDARY)
        } else {
            match (primary, secondary) {
                (_, Some(id)) => Err(Bmi270Error::<E>::WrongChipId(id)),
                (Some(id), None) => Err(Bmi270Error::WrongChipId(id)),
                (None, None) => Err(Bmi270Error::NotFound),
            }
        }),
{
    let mut last_id: Option<u8> = None;
    if let Some(id) = primary {
        if id == CHIP_ID {
            return Ok(ADDRESS_PRIMARY);
        }
        last_id = Some(id);
    }
    if let Some(id) = secondary {
        if id == CHIP_ID {
            return Ok(ADDRESS_SECONDARY);
        }
        last_id = Some(id);
    }
    match last_id {
        Some(id) => Err(Bmi270Error::WrongChipId(id)),
        None => Err(Bmi270Error::NotFound),
    }
}

/// Judges the feature-engine upload by the status register: its low nibble must read 1.
pub fn check_upload<E>(status: u8) -> (result: Result<(), Bmi270Error<E>>)
    ensures
        result == (if status % 16 == 1 {
            Ok(())
        } else {
            Err(Bmi270Error::<E>::InitFailed(status))
        }),
{
    if status % 16 == 1 {
        Ok(())
    } else {
        Err(Bmi270Error::InitFailed(status))
    }
}

/// Judges the magnetometer's product ID.
pub fn check_product_id<E>(product_id: u8) -> (result: Result<(), Mmc5983maError<E>>)
    ensures
        result == (if product_id == PRODUCT_ID {
            Ok(())
        } else {
            Err(Mmc5983maError::<E>::WrongProductId(product_id))
        }),
{
    if product_id == PRODUCT_ID {
        Ok(())
    } else {
        Err(Mmc5983maError::WrongProductId(product_id))
    }
}

/// One step of bringing a part up.
#[derive(Clone, Copy, Debug, PartialEq, Eq, Structural)]
pub enum InitStep {
    /// Write a register.
    Write { register: u8, value: u8 },
    /// Let the part settle.
    Wait { us: u32 },
    /// Push the feature-engine image.
    Upload,
    /// Read the status register and judge the upload by it.
    CheckUpload,
}

/// Bringing up the BMI270: a soft reset, the feature-engine upload with power save off, and then
/// the accelerometer (4 g), the gyroscope (1000 degrees per second) and the temperature sensor,
/// both inertial sensors at 200 Hz.
pub open spec fn inertial_plan() -> Seq<InitStep> {
    seq![
        InitStep::Write { register: 0x7E, value: 0xB6 },
        InitStep::Wait { us: 5_000 },
        InitStep::Write { register: 0x7C, value: 0x00 },
        InitStep::Wait { us: 500 },
        InitStep::Write { register: 0x59, value: 0x00 },
        InitStep::Upload,
        InitStep::Write { register: 0x59, value: 0x01 },
        InitStep::Wait { us: 150_000 },
        InitStep::CheckUpload,
        InitStep::Write { register: 0x7D, value: 0x0E },
        InitStep::Write { register: 0x40, value: 0x89 },
        InitStep::Write { register: 0x41, value: 0x01 },
        InitStep::Write { register: 0x42, value: 0xC9 },
        InitStep::Write { register: 0x43, value: 0x01 },
        InitStep::Write { register: 0x7C, value: 0x02 },
        InitStep::Wait { us: 50_000 },
    ]
}

/// Step `n` of bringing up the BMI270.
pub fn inertial_init_step(n: usize) -> (step: Option<InitStep>)
    ensures
        step == (if n < inertial_plan().len() {
            Some(inertial_plan()[n as int])
        } else {
            None
        }),
{
    match n {
        0 => Some(InitStep::Write { register: 0x7E, value: 0xB6 }),
        1 => Some(InitStep::Wait { us: 5_000 }),
        2 => Some(InitStep::Write { register: 0x7C, value: 0x00 }),
        3 => Some(InitStep::Wait { us: 500 }),
        4 => Some(InitStep::Write { register: 0x59, value: 0x00 }),
        5 => Some(InitStep::Upload),
        6 => Some(InitStep::Write { register: 0x59, value: 0x01 }),
        7 => Some(InitStep::Wait { us: 150_000 }),
        8 => Some(InitStep::CheckUpload),
        9 => Some(InitStep::Write { register: 0x7D, value: 0x0E }),
        10 => Some(InitStep::Write { register: 0x40, value: 0x89 }),
        11 => Some(InitStep::Write { register: 0x41, value: 0x01 }),
        12 => Some(InitStep::Write { register: 0x42, value: 0xC9 }),
        13 => Some(InitStep::Write { register: 0x43, value: 0x01 }),
        14 => Some(InitStep::Write { register: 0x7C, value: 0x02 }),
        15 => Some(InitStep::Wait { us: 50_000 }),
        _ => None,
    }
}

/// Bringing up the MMC5983MA, once its product ID has been read: a soft reset, then continuous
/// measurement at 100 Hz with automatic set/reset.
pub open spec fn magnetic_plan() -> Seq<InitStep> {
    seq![
        InitStep::Write { register: 0x0A, value: 0x80 },
        InitStep::Wait { us: 15_000 },
        InitStep::Write { register: 0x0A, value: 0x00 },
        InitStep::Write { register: 0x09, value: 0x20 },
        InitStep::Write { register: 0x0B, value: 0xCD },
        InitStep::Wait { us: 20_000 },
    ]
}

/// Step `n` of bringing up the MMC5983MA.
pub fn magnetic_init_step(n: usize) -> (step: Option<InitStep>)
    ensures
        step == (if n < magnetic_plan().len() {
            Some(magnetic_plan()[n as int])
        } else {
            None
        }),
{
    match n {
        0 => Some(InitStep::Write { register: 0x0A, value: 0x80 }),
        1 => Some(InitStep::Wait { us: 15_000 }),
        2 => Some(InitStep::Write { register: 0x0A, value: 0x00 }),
        3 => Some(InitStep::Write { register: 0x09, value: 0x20 }),
        4 => Some(InitStep::Write { register: 0x0B, value: 0xCD }),
        5 => Some(InitStep::Wait { us: 20_000 }),
        _ => None,
    }
}

/// One burst of the feature-engine image: bytes `start..end`, behind a write pointer given in two
/// registers.
#[derive(Clone, Copy, Debug, PartialEq, Eq, Structural)]
pub struct UploadChunk {
    /// Bits 3:0 of the write pointer.
    pub address_low: u8,
    /// Bits 11:4 of the write pointer.
    pub address_high: u8,
    pub start: usize,
    pub end: usize,
}

/// Burst `index` of an image of `len` bytes. The write pointer counts 16-bit words.
pub open spec fn chunk_of(len: int, index: int) -> UploadChunk {
    let words = (index * 64) % 0x1_0000;
    UploadChunk {
        address_low: (words % 16) as u8,
        address_high: (words / 16 % 256) as u8,
        start: (index * CONFIG_CHUNK) as usize,
        end: if (index + 1) * CONFIG_CHUNK < len {
            ((index + 1) * CONFIG_CHUNK) as usize
        } else {
            len as usize
        },
    }
}

/// Burst `index` of an image of `len` bytes, while there is one.
pub fn upload_chunk(len: usize, index: usize) -> (chunk: Option<UploadChunk>)
    ensures
        chunk == (if index * CONFIG_CHUNK < len {
            Some(chunk_of(len as int, index as int))
        } else {
            None
        }),
{
    let full: usize = len / CONFIG_CHUNK;
    let rest: usize = len % CONFIG_CHUNK;
    if index > full || (index == full && rest == 0) {
        return None;
    }
    let start: usize = index * CONFIG_CHUNK;
    let end: usize = if index < full {
        start + CONFIG_CHUNK
    } else {
        len
    };
    let words: usize = (start / 2) % 0x1_0000;
    Some(
        UploadChunk {
            address_low: (words % 16) as u8,
            address_high: (words / 16 % 256) as u8,
            start,
            end,
        },
    )
}

/// The bursts follow each other through the image without gap or overlap, from its first byte to
/// its last, and within the pointer's twelve bits the two address registers hold the burst's place.
pub proof fn chunks_tile_the_image(len: int, index: int)
    requires
        0 <= index,
        index * CONFIG_CHUNK < len <= usize::MAX,
    ensures
        chunk_of(len, 0).start == 0,
        chunk_of(len, index).start < chunk_of(len, index).end <= len,
        (index + 1) * CONFIG_CHUNK < len ==> chunk_of(len, index + 1).start == chunk_of(
            len,
            index,
        ).end,
        (index + 1) * CONFIG_CHUNK >= len ==> chunk_of(len, index).end == len,
        index * 64 < 4096 ==> chunk_of(len, index).address_low + 16 * chunk_of(
            len,
            index,
        ).address_high == chunk_of(len, index).start as int / 2,
{
}

/// The signed 16-bit number two bytes stand for, least significant first.
pub open spec fn signed_word(low: u8, high: u8) -> int {
    if high < 128 {
        low + 256 * high
    } else {
        low + 256 * high - 65_536
    }
}

/// Reads one little-endian signed 16-bit sample out of a burst.
pub fn word(buffer: &[u8], offset: usize) -> (value: i16)
    requires
        offset + 1 < buffer@.len(),
    ensures
        value == signed_word(buffer@[offset as int], buffer@[offset + 1]),
{
    let low: i32 = buffer[offset] as i32;
    let high: i32 = buffer[offset + 1] as i32;
    if high < 128 {
        (low + 256 * high) as i16
    } else {
        (low + 256 * high - 65_536) as i16
    }
}

/// One pass of the inertial half, in counts.
#[derive(Clone, Copy, Debug, PartialEq, Eq, Structural)]
pub struct InertialCounts {
    pub accel_x: i16,
    pub accel_y: i16,
    pub accel_z: i16,
    pub gyro_x: i16,
    pub gyro_y: i16,
    pub gyro_z: i16,
    /// `None` while the sensor reports its invalid code.
    pub temperature: Option<i16>,
}

/// Decodes a sample burst of the BMI270.
pub fn read_inertial(burst: &[u8; BURST_LEN]) -> (counts: InertialCounts)
    ensures
        counts.accel_x == signed_word(burst@[0], burst@[1]),
        counts.accel_y == signed_word(burst@[2], burst@[3]),
        counts.accel_z == signed_word(burst@[4], burst@[5]),
        counts.gyro_x == signed_word(burst@[6], burst@[7]),
        counts.gyro_y == signed_word(burst@[8], burst@[9]),
        counts.gyro_z == signed_word(burst@[10], burst@[11]),
        match counts.temperature {
            Some(raw) => raw == signed_word(burst@[22], burst@[23]) && raw != TEMPERATURE_INVALID,
            None => signed_word(burst@[22], burst@[23]) == TEMPERATURE_INVALID,
        },
{
    let raw: i16 = word(burst, TEMPERATURE_OFFSET);
    InertialCounts {
        accel_x: word(burst, 0),
        accel_y: word(burst, 2),
        accel_z: word(burst, 4),
        gyro_x: word(burst, 6),
        gyro_y: word(burst, 8),
        gyro_z: word(burst, 10),
        temperature: if raw == TEMPERATURE_INVALID {
            None
        } else {
            Some(raw)
        },
    }
}

/// One measurement of the magnetometer, in 18-bit counts.
#[derive(Clone, Copy, Debug, PartialEq, Eq, Structural)]
pub struct MagneticCounts {
    pub x: u32,
    pub y: u32,
    pub z: u32,
}

/// An axis is spread over three places: bits 17:10, bits 9:2, and two bits of a byte shared by all
/// axes.
pub open spec fn axis_counts(high: u8, low: u8, rest: int) -> int {
    high * 1024 + low * 4 + rest
}

/// Decodes a measurement burst of the MMC5983MA.
pub fn read_magnetic(burst: &[u8; MAGNETOMETER_BURST_LEN]) -> (counts: MagneticCounts)
    ensures
        counts.x == axis_counts(burst@[0], burst@[1], burst@[6] as int / 64),
        counts.y == axis_counts(burst@[2], burst@[3], burst@[6] as int / 16 % 4),
        counts.z == axis_counts(burst@[4], burst@[5], burst@[6] as int / 4 % 4),
        counts.x < 262_144 && counts.y < 262_144 && counts.z < 262_144,
{
    MagneticCounts {
        x: burst[0] as u32 * 1024 + burst[1] as u32 * 4 + (burst[6] / 64) as u32,
        y: burst[2] as u32 * 1024 + burst[3] as u32 * 4 + (burst[6] / 16 % 4) as u32,
        z: burst[4] as u32 * 1024 + burst[5] as u32 * 4 + (burst[6] / 4 % 4) as u32,
    }
}

/// A sample is a two's-complement number: within sixteen bits, and equal to its two bytes up to
/// 65536.
pub proof fn samples_are_twos_complement(low: u8, high: u8)
    ensures
        -32_768 <= signed_word(low, high) < 32_768,
        (signed_word(low, high) - low - 256 * high) % 65_536 == 0,
{
}

/// The three parts of a magnetic axis keep to their own bits of the eighteen.
pub proof fn axis_parts_keep_to_their_bits(high: u8, low: u8, rest: int)
    requires
        0 <= rest < 4,
    ensures
        axis_counts(high, low, rest) / 1_024 == high,
        axis_counts(high, low, rest) / 4 % 256 == low,
        axis_counts(high, low, rest) % 4 == rest,
{
}

/// Every burst but the last takes 128 bytes, from 128 times its number on.
pub proof fn bursts_are_full(len: int, index: int)
    requires
        0 <= index,
        index * 128 < len <= usize::MAX,
    ensures
        chunk_of(len, index).start == index * 128,
        chunk_of(len, index).end == if len < index * 128 + 128 {
            len
        } else {
            index * 128 + 128
        },
{
}

/// The BMI270 is reset first and given time; its image is uploaded once, with power save off and
/// between closing and opening the feature engine; the upload is judged once the engine has had its
/// 150 ms; and only then are the sensors switched on and set to their ranges.
pub proof fn the_inertial_part_is_brought_up_in_order()
    ensures
        ({
            let plan = inertial_plan();
            let write = |register: u8, value: u8| InitStep::Write { register, value };
            &&& plan.len() == 16
            &&& plan[0] == write(0x7E, 0xB6) && plan[1] == (InitStep::Wait { us: 5_000 })
            &&& plan[2] == write(0x7C, 0x00) && plan[3] == (InitStep::Wait { us: 500 })
            &&& plan[4] == write(0x59, 0x00) && plan[5] is Upload && plan[6] == write(0x59, 0x01)
            &&& plan[7] == (InitStep::Wait { us: 150_000 }) && plan[8] is CheckUpload
            &&& plan[9] == write(0x7D, 0x0E)
            &&& plan[10] == write(0x40, 0x89) && plan[11] == write(0x41, 0x01)
            &&& plan[12] == write(0x42, 0xC9) && plan[13] == write(0x43, 0x01)
            &&& plan[14] == write(0x7C, 0x02) && plan[15] == (InitStep::Wait { us: 50_000 })
        }),
        forall|i: int|
            0 <= i < inertial_plan().len() && (#[trigger] inertial_plan()[i]) is Upload ==> i == 5,
{
}

/// The MMC5983MA is reset first and given time, its control bits are cleared, and it then measures
/// on its own, restoring its bridge as it goes.
pub proof fn the_magnetic_part_is_brought_up_in_order()
    ensures
        ({
            let plan = magnetic_plan();
            let write = |register: u8, value: u8| InitStep::Write { register, value };
            &&& plan.len() == 6
            &&& plan[0] == write(0x0A, 0x80) && plan[1] == (InitStep::Wait { us: 15_000 })
            &&& plan[2] == write(0x0A, 0x00)
            &&& plan[3] == write(0x09, 0x20)
            &&& plan[4] == write(0x0B, 0xCD) && plan[5] == (InitStep::Wait { us: 20_000 })
        }),
{
}

} // verus!
