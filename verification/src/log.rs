//! Log levels of the engine.

use vstd::prelude::*;
use vstd::std_specs::convert::FromSpecImpl;
use crate::codes;
use crate::engine::EngineCall;
use crate::listener::ListenerId;

verus! {

/// The log levels that the engine supports.
#[derive(Copy, Clone, Debug, PartialEq)]
pub enum LogLevel {
    /// No messages.
    Disabled,
    /// Fatal level messages.
    Fatal,
    /// Error level messages.
    Error,
    /// Warn level messages.
    Warn,
    /// Info level messages.
    Info,
    /// Debug level messages.
    Debug,
    /// Message level messages.
    Message,
    /// Trace level messages.
    Trace,
    /// All messages.
    All,
    /// A level outside the known set, with its code.
    __Unknown(u32),
}

/// The level that a code of the engine stands for.
pub open spec fn log_level_of(code: u32) -> LogLevel {
    if code == codes::OTC_LOG_LEVEL_DISABLED {
        LogLevel::Disabled
    } else if code == codes::OTC_LOG_LEVEL_FATAL {
        LogLevel::Fatal
    } else if code == codes::OTC_LOG_LEVEL_ERROR {
        LogLevel::Error
    } else if code == codes::OTC_LOG_LEVEL_WARN {
        LogLevel::Warn
    } else if code == codes::OTC_LOG_LEVEL_INFO {
        LogLevel::Info
    } else if code == codes::OTC_LOG_LEVEL_DEBUG {
        LogLevel::Debug
    } else if code == codes::OTC_LOG_LEVEL_MSG {
        LogLevel::Message
    } else if code == codes::OTC_LOG_LEVEL_TRACE {
        LogLevel::Trace
    } else if code == codes::OTC_LOG_LEVEL_ALL {
        LogLevel::All
    } else {
        LogLevel::__Unknown(code)
    }
}

impl LogLevel {
    /// The code that the engine is given for a level. A level outside the known
    /// set switches logging off.
    pub open spec fn code_spec(self) -> u32 {
        match self {
            LogLevel::Disabled => codes::OTC_LOG_LEVEL_DISABLED,
            LogLevel::Fatal => codes::OTC_LOG_LEVEL_FATAL,
            LogLevel::Error => codes::OTC_LOG_LEVEL_ERROR,
            LogLevel::Warn => codes::OTC_LOG_LEVEL_WARN,
            LogLevel::Info => codes::OTC_LOG_LEVEL_INFO,
            LogLevel::Debug => codes::OTC_LOG_LEVEL_DEBUG,
            LogLevel::Message => codes::OTC_LOG_LEVEL_MSG,
            LogLevel::Trace => codes::OTC_LOG_LEVEL_TRACE,
            LogLevel::All => codes::OTC_LOG_LEVEL_ALL,
            LogLevel::__Unknown(_) => codes::OTC_LOG_LEVEL_DISABLED,
        }
    }

    pub fn code(self) -> (c: u32)
        ensures
            c == self.code_spec(),
    {
        match self {
            LogLevel::Disabled => codes::OTC_LOG_LEVEL_DISABLED,
            LogLevel::Fatal => codes::OTC_LOG_LEVEL_FATAL,
            LogLevel::Error => codes::OTC_LOG_LEVEL_ERROR,
            LogLevel::Warn => codes::OTC_LOG_LEVEL_WARN,
            LogLevel::Info => codes::OTC_LOG_LEVEL_INFO,
            LogLevel::Debug => codes::OTC_LOG_LEVEL_DEBUG,
            LogLevel::Message => codes::OTC_LOG_LEVEL_MSG,
            LogLevel::Trace => codes::OTC_LOG_LEVEL_TRACE,
            LogLevel::All => codes::OTC_LOG_LEVEL_ALL,
            LogLevel::__Unknown(_) => codes::OTC_LOG_LEVEL_DISABLED,
        }
    }
}

impl From<u32> for LogLevel {
    fn from(value: u32) -> (level: LogLevel) {
        if value == codes::OTC_LOG_LEVEL_DISABLED {
            LogLevel::Disabled
        } else if value == codes::OTC_LOG_LEVEL_FATAL {
            LogLevel::Fatal
        } else if value == codes::OTC_LOG_LEVEL_ERROR {
            LogLevel::Error
        } else if value == codes::OTC_LOG_LEVEL_WARN {
            LogLevel::Warn
        } else if value == codes::OTC_LOG_LEVEL_INFO {
            LogLevel::Info
        } else if value == codes::OTC_LOG_LEVEL_DEBUG {
            LogLevel::Debug
        } else if value == codes::OTC_LOG_LEVEL_MSG {
            LogLevel::Message
        } else if value == codes::OTC_LOG_LEVEL_TRACE {
            LogLevel::Trace
        } else if value == codes::OTC_LOG_LEVEL_ALL {
            LogLevel::All
        } else {
            LogLevel::__Unknown(value)
        }
    }
}

impl FromSpecImpl<u32> for LogLevel {
    open spec fn obeys_from_spec() -> bool {
        true
    }

    open spec fn from_spec(value: u32) -> LogLevel {
        log_level_of(value)
    }
}

/// A known level survives the way to the engine and back.
pub proof fn lemma_log_level_round_trip(level: LogLevel)
    requires
        !(level is __Unknown),
    ensures
        log_level_of(level.code_spec()) == level,
{
}

/// The request that switches the engine's logging to a level.
pub fn enable_log(level: LogLevel) -> (call: EngineCall)
    ensures
        call == (EngineCall::LogEnable { level: level.code_spec() }),
{
    EngineCall::LogEnable { level: level.code() }
}

/// The logger callbacks of a process, in the order of their registration.
#[derive(Debug)]
pub struct Loggers {
    callbacks: Vec<ListenerId>,
}

impl Loggers {
    /// The registered callbacks, oldest first.
    pub closed spec fn view(self) -> Seq<ListenerId> {
        self.callbacks@
    }

    /// No logger callbacks.
    pub fn new() -> (loggers: Loggers)
        ensures
            loggers@ == Seq::<ListenerId>::empty(),
    {
        Loggers { callbacks: Vec::new() }
    }

    /// The callbacks that a log message of the engine goes to: all of them, in
    /// the order of their registration.
    pub fn recipients(&self) -> (listeners: Vec<ListenerId>)
        ensures
            listeners@ == self@,
    {
        let mut listeners: Vec<ListenerId> = Vec::new();
        let mut i: usize = 0;
        while i < self.callbacks.len()
            invariant
                i <= self.callbacks@.len(),
                listeners@ == self.callbacks@.subrange(0, i as int),
            decreases self.callbacks@.len() - i,
        {
            listeners.push(self.callbacks[i]);
            proof {
                assert(listeners@ =~= self.callbacks@.subrange(0, i + 1));
            }
            i += 1;
        }
        proof {
            assert(listeners@ =~= self.callbacks@);
        }
        listeners
    }
}

/// Registers one more logger callback, and returns the request that has the
/// engine route its log messages to the registered callbacks.
pub fn logger_callback(loggers: &mut Loggers, callback: ListenerId) -> (call: EngineCall)
    ensures
        call == EngineCall::SetLoggerCallback,
        final(loggers)@ == old(loggers)@.push(callback),
{
    loggers.callbacks.push(callback);
    EngineCall::SetLoggerCallback
}

} // verus!
