use vstd::prelude::*;
use vstd::string::StringExecFns;

verus! {

/// The severity of a log event.
#[derive(Clone, Copy, Debug, PartialEq, Eq, Hash, Structural)]
pub enum Level {
    Error,
    Warn,
    Info,
    Debug,
    Trace,
}

/// The coloured label of a level.
pub open spec fn level_label(l: Level) -> Seq<char> {
    match l {
        Level::Error => "\x1b[31mERROR\x1b[0m"@,
        Level::Warn => "\x1b[33mWARN\x1b[0m"@,
        Level::Info => "\x1b[32mINFO\x1b[0m"@,
        Level::Debug => "\x1b[34mDEBUG\x1b[0m"@,
        Level::Trace => "\x1b[35mTRACE\x1b[0m"@,
    }
}

/// The coloured label of a level.
pub fn level_str(l: Level) -> (r: &'static str)
    ensures
        r@ == level_label(l),
{
    match l {
        Level::Error => "\x1b[31mERROR\x1b[0m",
        Level::Warn => "\x1b[33mWARN\x1b[0m",
        Level::Info => "\x1b[32mINFO\x1b[0m",
        Level::Debug => "\x1b[34mDEBUG\x1b[0m",
        Level::Trace => "\x1b[35mTRACE\x1b[0m",
    }
}

/// The message of a log event and its other fields, in the order recorded.
#[derive(Debug, PartialEq, Eq)]
pub struct LogRecord {
    pub message: String,
    pub fields: Vec<(String, String)>,
}

/// `name=value` with the name in bold.
pub open spec fn field_text(f: (String, String)) -> Seq<char> {
    "\x1b[1m"@ + f.0@ + "\x1b[0m"@ + "="@ + f.1@
}

/// The fields, separated by single spaces.
pub open spec fn fields_text(fs: Seq<(String, String)>) -> Seq<char>
    decreases fs.len(),
{
    if fs.len() == 0 {
        Seq::empty()
    } else if fs.len() == 1 {
        field_text(fs[0])
    } else {
        fields_text(fs.drop_last()) + " "@ + field_text(fs.last())
    }
}

/// A log line: the timestamp, the level's label, the message in bold, the
/// fields after two tabs when there are any, and a newline.
pub open spec fn log_line(timestamp: Seq<char>, level: Level, rec: LogRecord) -> Seq<char> {
    timestamp + " "@ + level_label(level) + " "@ + "\x1b[1m"@ + rec.message@ + "\x1b[0m"@
        + (if rec.fields@.len() > 0 { "\t\t"@ + fields_text(rec.fields@) } else { Seq::empty() }) + "\n"@
}

impl LogRecord {
    pub fn new() -> (r: LogRecord)
        ensures
            r.message@ == Seq::<char>::empty(),
            r.fields@ == Seq::<(String, String)>::empty(),
    {
        LogRecord { message: String::new(), fields: Vec::new() }
    }

    /// Keeps a field, whatever its name.
    pub fn add_field(&mut self, name: String, value: String)
        ensures
            final(self).message == old(self).message,
            final(self).fields@ == old(self).fields@.push((name, value)),
    {
        self.fields.push((name, value));
    }

    /// Records a field of the event: the one named `message` is the message,
    /// the others are kept in order.
    pub fn record(&mut self, name: String, value: String)
        ensures
            name@ == "message"@ ==> final(self).message == value && final(self).fields == old(self).fields,
            name@ != "message"@ ==> final(self).message == old(self).message
                && final(self).fields@ == old(self).fields@.push((name, value)),
    {
        let key = String::from_str("message");
        if name == key {
            self.message = value;
        } else {
            self.fields.push((name, value));
        }
    }
}

/// Formats a log line.
pub fn format_log_line(timestamp: &str, level: Level, rec: &LogRecord) -> (r: String)
    ensures
        r@ == log_line(timestamp@, level, *rec),
{
    let mut line = String::from_str(timestamp);
    line.append(" ");
    line.append(level_str(level));
    line.append(" ");
    line.append("\x1b[1m");
    line.append(rec.message.as_str());
    line.append("\x1b[0m");
    let ghost head = line@;
    if rec.fields.len() > 0 {
        line.append("\t\t");
        let mut i: usize = 0;
        while i < rec.fields.len()
            invariant
                i <= rec.fields@.len(),
                rec.fields@.len() > 0,
                line@ == head + "\t\t"@ + fields_text(rec.fields@.take(i as int)),
            decreases rec.fields@.len() - i,
        {
            if i > 0 {
                line.append(" ");
            }
            let f = &rec.fields[i];
            line.append("\x1b[1m");
            line.append(f.0.as_str());
            line.append("\x1b[0m");
            line.append("=");
            line.append(f.1.as_str());
            proof {
                let t = rec.fields@.take(i + 1);
                assert(t.drop_last() =~= rec.fields@.take(i as int));
                assert(t.last() == rec.fields@[i as int]);
                if i == 0 {
                    assert(rec.fields@.take(0) =~= Seq::<(String, String)>::empty());
                    assert(t[0] == rec.fields@[0]);
                }
                assert(line@ =~= head + "\t\t"@ + fields_text(t));
            }
            i = i + 1;
        }
        assert(rec.fields@.take(rec.fields@.len() as int) =~= rec.fields@);
    } else {
        assert(line@ =~= head + Seq::<char>::empty());
    }
    line.append("\n");
    line
}

} // verus!
