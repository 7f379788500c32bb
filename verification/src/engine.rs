//! Tick scheduler: a single cooperative loop that, each tick, asks every
//! task's gate whether it fires, records whatever the sensor ports returned,
//! and decides when to print, render and publish. The loop's sleeping, the
//! sensor I/O and the transport live with the caller; the decisions and the
//! table updates are all here.

use vstd::prelude::*;

use crate::gate::EnterTimerGuard;
use crate::parse::parse_reading;
use crate::parse::spec_parse_reading;
use crate::table::MAX_RAW_MAGNITUDE;
use crate::table::MILLI_DIVISOR;
use crate::table::Quantity;
use crate::table::ResultTable;

verus! {

/// Fixed tick period of the scheduler loop, milliseconds.
pub const TICK_INTERVAL_MS: u64 = 2000;

/// Sampling period of the DHT22 sensor task.
pub const DHT22_INTERVAL_MS: u64 = 5000;

/// Sampling period of the AHT20 sensor task.
pub const AHT20_INTERVAL_MS: u64 = 5000;

/// Sampling period of the BMP280 sensor task.
pub const BMP280_INTERVAL_MS: u64 = 5000;

/// Period of the table log line.
pub const PRINT_INTERVAL_MS: u64 = 8000;

/// Period of the display refresh.
pub const DISPLAY_INTERVAL_MS: u64 = 16000;

/// Period of the telemetry publish.
pub const SEND_INTERVAL_MS: u64 = 16000;

/// Command-line configuration of the agent: device identity, broker address,
/// optional credentials (absence means an anonymous connection).
#[derive(Debug, Clone)]
pub struct ProgramArgs {
    pub id_device: String,
    pub host_mqqt: String,
    pub port_mqqt: u16,
    pub username_mqqt: Option<String>,
    pub password_mqqt: Option<String>,
}

/// What one tick asks the caller to do, one flag per gated task.
#[derive(Clone, Copy, Debug, PartialEq, Eq, Structural)]
pub struct TickPlan {
    pub read_dht22: bool,
    pub read_aht20: bool,
    pub read_bmp280: bool,
    pub print_table: bool,
    pub render_display: bool,
    pub send_telemetry: bool,
}

/// The value a sensor-file text stands for: the raw reading it parses to,
/// when that reading is within the range a sensor may report; a missing file
/// or unparseable text is a failed read.
pub open spec fn spec_text_outcome(text: Option<Seq<u8>>) -> Option<i64> {
    match text {
        Option::None => None,
        Option::Some(bytes) => match spec_parse_reading(bytes) {
            Option::Some(raw) => if -MAX_RAW_MAGNITUDE <= raw <= MAX_RAW_MAGNITUDE {
                Some(raw)
            } else {
                None
            },
            Option::None => None,
        },
    }
}

/// The bytes behind an optional borrowed text.
pub open spec fn spec_text_view(text: Option<&[u8]>) -> Option<Seq<u8>> {
    match text {
        Option::None => None,
        Option::Some(bytes) => Some(bytes@),
    }
}

/// The temperature half of a two-quantity measurement.
pub open spec fn spec_pair_first(reading: Option<(i64, i64)>) -> Option<i64> {
    match reading {
        Option::None => None,
        Option::Some(pair) => Some(pair.0),
    }
}

/// The second half of a two-quantity measurement.
pub open spec fn spec_pair_second(reading: Option<(i64, i64)>) -> Option<i64> {
    match reading {
        Option::None => None,
        Option::Some(pair) => Some(pair.1),
    }
}

/// Parse one sensor file's text and range-check the raw value, turning
/// anything unusable into a failed read.
pub fn read_text_outcome(text: Option<&[u8]>) -> (outcome: Option<i64>)
    ensures
        outcome == spec_text_outcome(spec_text_view(text)),
{
    match text {
        Option::None => None,
        Option::Some(bytes) => match parse_reading(bytes) {
            Option::Some(raw) => if -MAX_RAW_MAGNITUDE <= raw && raw <= MAX_RAW_MAGNITUDE {
                Some(raw)
            } else {
                None
            },
            Option::None => None,
        },
    }
}

/// The scheduler's whole state: one gate per periodic task and the table of
/// latest readings. The caller owns the clock and the collaborators; this
/// type owns every decision and every table update.
pub struct Engine {
    pub dht22_gate: EnterTimerGuard,
    pub aht20_gate: EnterTimerGuard,
    pub bmp280_gate: EnterTimerGuard,
    pub print_gate: EnterTimerGuard,
    pub display_gate: EnterTimerGuard,
    pub send_gate: EnterTimerGuard,
    pub result_table: ResultTable,
}

impl Engine {
    /// A newly created engine: every gate carries its task's period and fires
    /// on the first tick; the table is all zero.
    pub open spec fn spec_init(now_ms: u64) -> Engine {
        Engine {
            dht22_gate: EnterTimerGuard {
                interval_ms: DHT22_INTERVAL_MS,
                last_enter_ms: now_ms,
                force_next: true,
            },
            aht20_gate: EnterTimerGuard {
                interval_ms: AHT20_INTERVAL_MS,
                last_enter_ms: now_ms,
                force_next: true,
            },
            bmp280_gate: EnterTimerGuard {
                interval_ms: BMP280_INTERVAL_MS,
                last_enter_ms: now_ms,
                force_next: true,
            },
            print_gate: EnterTimerGuard {
                interval_ms: PRINT_INTERVAL_MS,
                last_enter_ms: now_ms,
                force_next: true,
            },
            display_gate: EnterTimerGuard {
                interval_ms: DISPLAY_INTERVAL_MS,
                last_enter_ms: now_ms,
                force_next: true,
            },
            send_gate: EnterTimerGuard {
                interval_ms: SEND_INTERVAL_MS,
                last_enter_ms: now_ms,
                force_next: true,
            },
            result_table: ResultTable::spec_initial(),
        }
    }

    /// No gate's last firing lies in the future of `now_ms`.
    pub open spec fn ready_at(self, now_ms: u64) -> bool {
        &&& self.dht22_gate.last_enter_ms <= now_ms
        &&& self.aht20_gate.last_enter_ms <= now_ms
        &&& self.bmp280_gate.last_enter_ms <= now_ms
        &&& self.print_gate.last_enter_ms <= now_ms
        &&& self.display_gate.last_enter_ms <= now_ms
        &&& self.send_gate.last_enter_ms <= now_ms
    }

    /// The engine with its table replaced and every gate untouched.
    pub open spec fn with_table(self, table: ResultTable) -> Engine {
        Engine { result_table: table, ..self }
    }

    /// Create the scheduler at the given instant.
    pub fn new(now_ms: u64) -> (engine: Engine)
        ensures
            engine == Engine::spec_init(now_ms),
    {
        Engine {
            dht22_gate: EnterTimerGuard::new(DHT22_INTERVAL_MS, now_ms),
            aht20_gate: EnterTimerGuard::new(AHT20_INTERVAL_MS, now_ms),
            bmp280_gate: EnterTimerGuard::new(BMP280_INTERVAL_MS, now_ms),
            print_gate: EnterTimerGuard::new(PRINT_INTERVAL_MS, now_ms),
            display_gate: EnterTimerGuard::new(DISPLAY_INTERVAL_MS, now_ms),
            send_gate: EnterTimerGuard::new(SEND_INTERVAL_MS, now_ms),
            result_table: ResultTable::default(),
        }
    }

    /// Evaluate every gate for one tick, in registration order. Each flag in
    /// the plan says whether that task fires this tick; each gate that fires
    /// restarts its cooldown. The table is untouched, and the engine stays
    /// ready for every later instant.
    pub fn plan_tick(&mut self, now_ms: u64) -> (plan: TickPlan)
        requires
            old(self).ready_at(now_ms),
        ensures
            plan.read_dht22 == old(self).dht22_gate.spec_due(now_ms),
            plan.read_aht20 == old(self).aht20_gate.spec_due(now_ms),
            plan.read_bmp280 == old(self).bmp280_gate.spec_due(now_ms),
            plan.print_table == old(self).print_gate.spec_due(now_ms),
            plan.render_display == old(self).display_gate.spec_due(now_ms),
            plan.send_telemetry == old(self).send_gate.spec_due(now_ms),
            final(self).dht22_gate == old(self).dht22_gate.spec_step(now_ms),
            final(self).aht20_gate == old(self).aht20_gate.spec_step(now_ms),
            final(self).bmp280_gate == old(self).bmp280_gate.spec_step(now_ms),
            final(self).print_gate == old(self).print_gate.spec_step(now_ms),
            final(self).display_gate == old(self).display_gate.spec_step(now_ms),
            final(self).send_gate == old(self).send_gate.spec_step(now_ms),
            final(self).result_table == old(self).result_table,
            forall|later: u64| now_ms <= later ==> #[trigger] final(self).ready_at(later),
    {
        let read_dht22: bool = self.dht22_gate.enter(now_ms);
        let read_aht20: bool = self.aht20_gate.enter(now_ms);
        let read_bmp280: bool = self.bmp280_gate.enter(now_ms);
        let print_table: bool = self.print_gate.enter(now_ms);
        let render_display: bool = self.display_gate.enter(now_ms);
        let send_telemetry: bool = self.send_gate.enter(now_ms);
        TickPlan {
            read_dht22,
            read_aht20,
            read_bmp280,
            print_table,
            render_display,
            send_telemetry,
        }
    }

    /// Record one DHT22 sampling: the two sysfs texts (temperature, then
    /// humidity; `None` for a file that could not be read) are parsed as raw
    /// milli-unit readings and recorded independently — a text that fails to
    /// parse leaves its field untouched.
    pub fn record_dht22(&mut self, temp_text: Option<&[u8]>, humidity_text: Option<&[u8]>)
        ensures
            *final(self) == old(self).with_table(
                old(self).result_table.spec_record(
                    Quantity::Dht22Temperature,
                    spec_text_outcome(spec_text_view(temp_text)),
                    MILLI_DIVISOR as int,
                ).spec_record(
                    Quantity::Dht22Humidity,
                    spec_text_outcome(spec_text_view(humidity_text)),
                    MILLI_DIVISOR as int,
                ),
            ),
    {
        let temp_outcome: Option<i64> = read_text_outcome(temp_text);
        self.result_table.record(Quantity::Dht22Temperature, temp_outcome, MILLI_DIVISOR);
        let humidity_outcome: Option<i64> = read_text_outcome(humidity_text);
        self.result_table.record(Quantity::Dht22Humidity, humidity_outcome, MILLI_DIVISOR);
    }

    /// Record one AHT20 measurement, reported by its port in thousandths
    /// (temperature, then humidity). A failed measurement leaves both fields.
    pub fn record_aht20(&mut self, reading: Option<(i64, i64)>)
        requires
            (reading matches Some(pair) ==> -MAX_RAW_MAGNITUDE <= pair.0 <= MAX_RAW_MAGNITUDE
                && -MAX_RAW_MAGNITUDE <= pair.1 <= MAX_RAW_MAGNITUDE),
        ensures
            *final(self) == old(self).with_table(
                old(self).result_table.spec_record(
                    Quantity::Aht20Temperature,
                    spec_pair_first(reading),
                    MILLI_DIVISOR as int,
                ).spec_record(
                    Quantity::Aht20Humidity,
                    spec_pair_second(reading),
                    MILLI_DIVISOR as int,
                ),
            ),
    {
        let temperature: Option<i64> = match reading {
            Option::Some(pair) => Some(pair.0),
            Option::None => None,
        };
        let humidity: Option<i64> = match reading {
            Option::Some(pair) => Some(pair.1),
            Option::None => None,
        };
        self.result_table.record(Quantity::Aht20Temperature, temperature, MILLI_DIVISOR);
        self.result_table.record(Quantity::Aht20Humidity, humidity, MILLI_DIVISOR);
    }

    /// Record one BMP280 measurement, reported by its port in thousandths
    /// (temperature, then pressure). A failed measurement leaves both fields.
    pub fn record_bmp280(&mut self, reading: Option<(i64, i64)>)
        requires
            (reading matches Some(pair) ==> -MAX_RAW_MAGNITUDE <= pair.0 <= MAX_RAW_MAGNITUDE
                && -MAX_RAW_MAGNITUDE <= pair.1 <= MAX_RAW_MAGNITUDE),
        ensures
            *final(self) == old(self).with_table(
                old(self).result_table.spec_record(
                    Quantity::Bmp280Temperature,
                    spec_pair_first(reading),
                    MILLI_DIVISOR as int,
                ).spec_record(
                    Quantity::Bmp280Pressure,
                    spec_pair_second(reading),
                    MILLI_DIVISOR as int,
                ),
            ),
    {
        let temperature: Option<i64> = match reading {
            Option::Some(pair) => Some(pair.0),
            Option::None => None,
        };
        let pressure: Option<i64> = match reading {
            Option::Some(pair) => Some(pair.1),
            Option::None => None,
        };
        self.result_table.record(Quantity::Bmp280Temperature, temperature, MILLI_DIVISOR);
        self.result_table.record(Quantity::Bmp280Pressure, pressure, MILLI_DIVISOR);
    }

    /// An immutable copy of the table, safe to hand across component
    /// boundaries without locking.
    pub fn snapshot(&self) -> (snapshot: ResultTable)
        ensures
            snapshot == self.result_table,
    {
        self.result_table
    }
}

} // verus!
