//! Latest-reading snapshot: one fixed-point field per physical quantity,
//! updated only by successful sensor reads (stale-but-valid semantics).

use vstd::prelude::*;

verus! {

/// Fixed-point scale of every table field: thousandths of the physical unit.
pub const MILLI_DIVISOR: u64 = 1000;

/// Largest raw reading magnitude a sensor port may hand in. Physical readings
/// are far below this; the bound keeps the fixed-point scaling inside `i64`.
pub const MAX_RAW_MAGNITUDE: i64 = 1_000_000_000_000_000;

/// Largest unit divisor a sensor port may declare.
pub const MAX_DIVISOR: u64 = 1_000_000_000;

/// Largest table field magnitude the display averages accept; keeps the sums
/// inside `i64`.
pub const MAX_FIELD_MAGNITUDE: i64 = 1_000_000_000_000_000_000;

/// The physical quantities the agent samples, one per table field.
#[derive(Clone, Copy, Debug, PartialEq, Eq, Structural)]
pub enum Quantity {
    Dht22Temperature,
    Dht22Humidity,
    Aht20Temperature,
    Aht20Humidity,
    Bmp280Temperature,
    Bmp280Pressure,
}

/// Snapshot of the most recent reading per quantity, in thousandths of the
/// unit (milli-degrees Celsius, milli-percent relative humidity,
/// milli-kilopascal). Every field is zero until the first successful read;
/// a failed read never touches its field.
#[derive(Clone, Copy, Debug, PartialEq, Eq, Structural)]
pub struct ResultTable {
    /// DHT22 temperature, milli-degrees Celsius.
    pub dht22_temp: i64,
    /// DHT22 relative humidity, milli-percent.
    pub dht22_humidity: i64,
    /// AHT20 temperature, milli-degrees Celsius.
    pub aht20_temp: i64,
    /// AHT20 relative humidity, milli-percent.
    pub aht20_humidity: i64,
    /// BMP280 temperature, milli-degrees Celsius.
    pub bmp280_temp: i64,
    /// BMP280 pressure, milli-kilopascal.
    pub bmp280_pressure: i64,
    /// Demonstration toggle shown by the display collaborator.
    pub demo_switch: bool,
}

/// Integer division truncated toward zero, the rounding every conversion in
/// this crate uses.
pub open spec fn spec_trunc_div(n: int, d: int) -> int
    recommends
        d > 0,
{
    if n >= 0 {
        n / d
    } else {
        -((-n) / d)
    }
}

/// Value stored for a raw device reading under the given unit divisor:
/// `raw / divisor` units, expressed in thousandths of the unit and truncated
/// toward zero.
pub open spec fn spec_scaled(raw: int, divisor: int) -> int
    recommends
        divisor > 0,
{
    spec_trunc_div(raw * 1000, divisor)
}

/// Integer division truncated toward zero.
fn trunc_div(n: i64, d: u64) -> (quotient: i64)
    requires
        0 < d,
        i64::MIN < n,
    ensures
        quotient == spec_trunc_div(n as int, d as int),
{
    if n >= 0 {
        ((n as u64) / d) as i64
    } else {
        let magnitude: u64 = (-n) as u64;
        -((magnitude / d) as i64)
    }
}

/// Apply the per-port unit conversion to a raw device reading: the result is
/// `raw / divisor` units, in thousandths of the unit, truncated toward zero.
pub fn scale_reading(raw: i64, divisor: u64) -> (value: i64)
    requires
        0 < divisor <= MAX_DIVISOR,
        -MAX_RAW_MAGNITUDE <= raw <= MAX_RAW_MAGNITUDE,
    ensures
        value == spec_scaled(raw as int, divisor as int),
{
    trunc_div(raw * 1000, divisor)
}

impl ResultTable {
    /// The table with every reading at zero and the toggle off.
    pub open spec fn spec_initial() -> ResultTable {
        ResultTable {
            dht22_temp: 0,
            dht22_humidity: 0,
            aht20_temp: 0,
            aht20_humidity: 0,
            bmp280_temp: 0,
            bmp280_pressure: 0,
            demo_switch: false,
        }
    }

    /// The field holding the given quantity.
    pub open spec fn spec_field(self, quantity: Quantity) -> i64 {
        match quantity {
            Quantity::Dht22Temperature => self.dht22_temp,
            Quantity::Dht22Humidity => self.dht22_humidity,
            Quantity::Aht20Temperature => self.aht20_temp,
            Quantity::Aht20Humidity => self.aht20_humidity,
            Quantity::Bmp280Temperature => self.bmp280_temp,
            Quantity::Bmp280Pressure => self.bmp280_pressure,
        }
    }

    /// The table with exactly one field replaced.
    pub open spec fn spec_set_field(self, quantity: Quantity, value: i64) -> ResultTable {
        match quantity {
            Quantity::Dht22Temperature => ResultTable { dht22_temp: value, ..self },
            Quantity::Dht22Humidity => ResultTable { dht22_humidity: value, ..self },
            Quantity::Aht20Temperature => ResultTable { aht20_temp: value, ..self },
            Quantity::Aht20Humidity => ResultTable { aht20_humidity: value, ..self },
            Quantity::Bmp280Temperature => ResultTable { bmp280_temp: value, ..self },
            Quantity::Bmp280Pressure => ResultTable { bmp280_pressure: value, ..self },
        }
    }

    /// The table after one read attempt for `quantity`: a failed read changes
    /// nothing, a successful raw reading overwrites exactly that field with
    /// the scaled value.
    pub open spec fn spec_record(
        self,
        quantity: Quantity,
        outcome: Option<i64>,
        divisor: int,
    ) -> ResultTable {
        match outcome {
            Option::None => self,
            Option::Some(raw) => self.spec_set_field(quantity, spec_scaled(raw as int, divisor) as i64),
        }
    }

    /// Average of the three temperature fields, in milli-degrees Celsius,
    /// truncated toward zero — the figure the display collaborator shows.
    pub fn average_temperature_milli(&self) -> (average: i64)
        requires
            -MAX_FIELD_MAGNITUDE <= self.aht20_temp <= MAX_FIELD_MAGNITUDE,
            -MAX_FIELD_MAGNITUDE <= self.bmp280_temp <= MAX_FIELD_MAGNITUDE,
            -MAX_FIELD_MAGNITUDE <= self.dht22_temp <= MAX_FIELD_MAGNITUDE,
        ensures
            average == spec_trunc_div(
                self.aht20_temp + self.bmp280_temp + self.dht22_temp,
                3,
            ),
    {
        let sum: i64 = self.aht20_temp + self.bmp280_temp + self.dht22_temp;
        trunc_div(sum, 3)
    }

    /// Average of the two humidity fields, in milli-percent, truncated toward
    /// zero — the figure the display collaborator shows.
    pub fn average_humidity_milli(&self) -> (average: i64)
        requires
            -MAX_FIELD_MAGNITUDE <= self.aht20_humidity <= MAX_FIELD_MAGNITUDE,
            -MAX_FIELD_MAGNITUDE <= self.dht22_humidity <= MAX_FIELD_MAGNITUDE,
        ensures
            average == spec_trunc_div(self.aht20_humidity + self.dht22_humidity, 2),
    {
        let sum: i64 = self.aht20_humidity + self.dht22_humidity;
        trunc_div(sum, 2)
    }

    /// Record one read attempt. A failed read (`None`) never changes any
    /// field; a successful read always overwrites the field for `quantity`
    /// with `raw / divisor` units (in thousandths, truncated toward zero) and
    /// touches nothing else.
    pub fn record(&mut self, quantity: Quantity, outcome: Option<i64>, divisor: u64)
        requires
            0 < divisor <= MAX_DIVISOR,
            (outcome matches Some(raw) ==> -MAX_RAW_MAGNITUDE <= raw <= MAX_RAW_MAGNITUDE),
        ensures
            *final(self) == old(self).spec_record(quantity, outcome, divisor as int),
    {
        match outcome {
            Option::None => {},
            Option::Some(raw) => {
                let value: i64 = scale_reading(raw, divisor);
                match quantity {
                    Quantity::Dht22Temperature => { self.dht22_temp = value; },
                    Quantity::Dht22Humidity => { self.dht22_humidity = value; },
                    Quantity::Aht20Temperature => { self.aht20_temp = value; },
                    Quantity::Aht20Humidity => { self.aht20_humidity = value; },
                    Quantity::Bmp280Temperature => { self.bmp280_temp = value; },
                    Quantity::Bmp280Pressure => { self.bmp280_pressure = value; },
                }
            },
        }
    }
}

impl Default for ResultTable {
    /// All readings start at zero until the first successful read.
    fn default() -> (table: ResultTable)
        ensures
            table == ResultTable::spec_initial(),
    {
        ResultTable {
            dht22_temp: 0,
            dht22_humidity: 0,
            aht20_temp: 0,
            aht20_humidity: 0,
            bmp280_temp: 0,
            bmp280_pressure: 0,
            demo_switch: false,
        }
    }
}

} // verus!
