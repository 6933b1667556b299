use vstd::prelude::*;

use crate::clock::LocalStamp;
use crate::config::Config;
use crate::config::Server;
use crate::textfmt::date_chars;
use crate::textfmt::dec_chars;
use crate::textfmt::push_date;
use crate::textfmt::push_decimal;
use crate::textfmt::push_stamp;
use crate::textfmt::stamp_chars;

verus! {

/// Why building or driving the managed server failed.
pub enum ServerError {
    /// The executable or the server artifact is missing; `path` names it.
    NotFound { path: String },
    /// Opening the log or input-channel path was denied; `path` names it.
    PermissionDenied { path: String },
    /// Some other input/output failure while the supervisor ran.
    Io { detail: String },
    /// A schedule mark is not a valid `HH:MM` time; `input` is the text.
    ScheduleParse { input: String },
    /// The start and stop marks are equal, so no valid window exists.
    ScheduleConflict,
}

/// A lifecycle log line: the fixed tag, a full timestamp, the message,
/// a newline.
pub open spec fn lifecycle_line(t: LocalStamp, msg: Seq<char>) -> Seq<char> {
    "[WATCHMYMCSERVER LOG "@ + stamp_chars(t) + "] "@ + msg + "\n"@
}

/// A captured-output log line: the fixed tag, the calendar date, the raw
/// line, a newline.
pub open spec fn output_line(t: LocalStamp, text: Seq<char>) -> Seq<char> {
    "[WATCHMYMCSERVER SERVER "@ + date_chars(t) + "] "@ + text + "\n"@
}

/// The exact bytes of the graceful-shutdown instruction: the ASCII text
/// `stop`, with no trailing newline.
pub open spec fn stop_payload() -> Seq<u8> {
    seq![115u8, 116u8, 111u8, 112u8]
}

/// Builds one lifecycle log line for `msg` at time `t`.
pub fn format_lifecycle_line(t: &LocalStamp, msg: &str) -> (r: String)
    requires
        t.wf(),
    ensures
        r@ == lifecycle_line(*t, msg@),
{
    let mut out = String::from_str("[WATCHMYMCSERVER LOG ");
    push_stamp(&mut out, t);
    out.append("] ");
    out.append(msg);
    out.append("\n");
    proof {
        assert(out@ =~= lifecycle_line(*t, msg@));
    }
    out
}

/// Builds one captured-output log line for `text` at time `t`.
pub fn format_output_line(t: &LocalStamp, text: &str) -> (r: String)
    requires
        t.wf(),
    ensures
        r@ == output_line(*t, text@),
{
    let mut out = String::from_str("[WATCHMYMCSERVER SERVER ");
    push_date(&mut out, t);
    out.append("] ");
    out.append(text);
    out.append("\n");
    proof {
        assert(out@ =~= output_line(*t, text@));
    }
    out
}

/// The `-Xmx` launch argument for a maximum heap of `max` megabytes.
pub open spec fn xmx_chars(max: u32) -> Seq<char> {
    "-Xmx"@ + dec_chars(max as nat) + "M"@
}

/// The soft-maximum-heap launch argument for `soft` megabytes.
pub open spec fn soft_max_chars(soft: u32) -> Seq<char> {
    "-XX:SoftMaxHeapSize="@ + dec_chars(soft as nat) + "M"@
}

/// The `-Xms` launch argument: one quarter of the maximum heap.
pub open spec fn xms_chars(max: u32) -> Seq<char> {
    "-Xms"@ + dec_chars((max / 4) as nat) + "M"@
}

/// The launch argument vector, in order: `-jar`, the three heap
/// arguments, every extra argument verbatim, the artifact path, and the
/// fixed no-GUI flag.
pub open spec fn launch_args_spec(s: Server) -> Seq<Seq<char>> {
    seq!["-jar"@, xmx_chars(s.max_heap_size), soft_max_chars(s.soft_max_heap_size), xms_chars(
        s.max_heap_size,
    )] + s.extra_args.deep_view() + seq![s.jar@, "nogui"@]
}

/// The managed server's lifecycle core: the configuration snapshot, the
/// running flag, and models of everything written to the log sink and
/// the input channel in this run.
///
/// The core decides and formats; it performs no input or output itself.
/// Whoever owns the real files appends exactly the returned lines to the
/// log sink and writes exactly the returned payloads to the input
/// channel, in call order.
pub struct MinecraftServer {
    config: Config,
    started: bool,
    log: Ghost<Seq<char>>,
    stdin_writes: Ghost<Seq<Seq<u8>>>,
}

impl MinecraftServer {
    /// The lifecycle flag: true between a start and the matching stop or
    /// natural exit.
    pub closed spec fn spec_started(&self) -> bool {
        self.started
    }

    /// Everything appended to the log sink in this run, in order.
    pub closed spec fn log(&self) -> Seq<char> {
        self.log@
    }

    /// Every payload written to the input channel in this run, in order.
    pub closed spec fn stdin_writes(&self) -> Seq<Seq<u8>> {
        self.stdin_writes@
    }

    /// The configuration snapshot taken at construction.
    pub closed spec fn spec_config(&self) -> Config {
        self.config
    }

    /// Validates a configuration against what is on disk and builds the
    /// core. `java_exists` and `jar_exists` report whether the executable
    /// and the artifact were found. Construction fails before anything
    /// else may happen, so no log or input-channel file is created on the
    /// failing paths.
    pub fn new(config: Config, java_exists: bool, jar_exists: bool) -> (r: Result<
        MinecraftServer,
        ServerError,
    >)
        ensures
            !java_exists ==> (r matches Err(ServerError::NotFound { path }) && path@
                == config.java@),
            java_exists && !jar_exists ==> (r matches Err(ServerError::NotFound { path }) && path@
                == config.server.jar@),
            java_exists && jar_exists ==> (r matches Ok(s) && s.spec_config() == config
                && !s.spec_started() && s.log() == Seq::<char>::empty() && s.stdin_writes()
                == Seq::<Seq<u8>>::empty()),
    {
        if !java_exists {
            return Err(ServerError::NotFound { path: config.java });
        }
        if !jar_exists {
            return Err(ServerError::NotFound { path: config.server.jar });
        }
        Ok(
            MinecraftServer {
                config,
                started: false,
                log: Ghost(Seq::empty()),
                stdin_writes: Ghost(Seq::empty()),
            },
        )
    }

    /// Marks the lifecycle `Running` and yields the "starting server"
    /// lifecycle line, appended to the log model.
    pub fn on_start(&mut self, now: &LocalStamp) -> (line: String)
        requires
            now.wf(),
        ensures
            final(self).spec_started(),
            line@ == lifecycle_line(*now, "starting server"@),
            final(self).log() == old(self).log() + line@,
            final(self).stdin_writes() == old(self).stdin_writes(),
            final(self).spec_config() == old(self).spec_config(),
    {
        self.started = true;
        let line = format_lifecycle_line(now, "starting server");
        proof {
            self.log@ = self.log@ + line@;
        }
        line
    }

    /// Yields the tagged log line for one captured line of the managed
    /// process's output, appended to the log model.
    pub fn on_output(&mut self, now: &LocalStamp, text: &str) -> (line: String)
        requires
            now.wf(),
        ensures
            line@ == output_line(*now, text@),
            final(self).log() == old(self).log() + line@,
            final(self).spec_started() == old(self).spec_started(),
            final(self).stdin_writes() == old(self).stdin_writes(),
            final(self).spec_config() == old(self).spec_config(),
    {
        let line = format_output_line(now, text);
        proof {
            self.log@ = self.log@ + line@;
        }
        line
    }

    /// Marks the lifecycle `Stopped` once the output stream has closed,
    /// and yields the "server exited" lifecycle line, appended to the log
    /// model.
    pub fn on_exit(&mut self, now: &LocalStamp) -> (line: String)
        requires
            now.wf(),
        ensures
            !final(self).spec_started(),
            line@ == lifecycle_line(*now, "server exited"@),
            final(self).log() == old(self).log() + line@,
            final(self).stdin_writes() == old(self).stdin_writes(),
            final(self).spec_config() == old(self).spec_config(),
    {
        self.started = false;
        let line = format_lifecycle_line(now, "server exited");
        proof {
            self.log@ = self.log@ + line@;
        }
        line
    }

    /// Marks the lifecycle `Stopped` and yields the graceful-shutdown
    /// instruction: exactly the bytes `stop`, never more, never less,
    /// whatever the prior state. The payload is recorded in the
    /// input-channel model.
    pub fn stop(&mut self) -> (payload: Vec<u8>)
        ensures
            payload@ == stop_payload(),
            !final(self).spec_started(),
            final(self).stdin_writes() == old(self).stdin_writes().push(stop_payload()),
            final(self).log() == old(self).log(),
            final(self).spec_config() == old(self).spec_config(),
    {
        let mut payload: Vec<u8> = Vec::new();
        payload.push(115u8);
        payload.push(116u8);
        payload.push(111u8);
        payload.push(112u8);
        self.started = false;
        proof {
            self.stdin_writes@ = self.stdin_writes@.push(payload@);
            assert(payload@ =~= stop_payload());
        }
        payload
    }

    /// The current lifecycle state; read-only.
    pub fn started(&self) -> (r: bool)
        ensures
            r == self.spec_started(),
    {
        self.started
    }

    /// Builds the launch argument vector described by
    /// [`launch_args_spec`].
    pub fn launch_args(&self) -> (r: Vec<String>)
        ensures
            r.deep_view() == launch_args_spec(self.spec_config().server),
    {
        let mut args: Vec<String> = Vec::new();
        args.push(String::from_str("-jar"));
        let mut xmx = String::from_str("-Xmx");
        push_decimal(&mut xmx, self.config.server.max_heap_size as u64);
        xmx.append("M");
        args.push(xmx);
        let mut soft = String::from_str("-XX:SoftMaxHeapSize=");
        push_decimal(&mut soft, self.config.server.soft_max_heap_size as u64);
        soft.append("M");
        args.push(soft);
        let mut xms = String::from_str("-Xms");
        push_decimal(&mut xms, (self.config.server.max_heap_size / 4) as u64);
        xms.append("M");
        args.push(xms);
        let ghost head: Seq<Seq<char>> = seq![
            "-jar"@,
            xmx_chars(self.config.server.max_heap_size),
            soft_max_chars(self.config.server.soft_max_heap_size),
            xms_chars(self.config.server.max_heap_size),
        ];
        proof {
            assert(args.deep_view() =~= head);
        }
        let n = self.config.server.extra_args.len();
        let mut i: usize = 0;
        while i < n
            invariant
                i <= n,
                n == self.config.server.extra_args.len(),
                args.deep_view() =~= head + self.config.server.extra_args.deep_view().take(
                    i as int,
                ),
            decreases n - i,
        {
            let extra = self.config.server.extra_args[i].clone();
            proof {
                assert(extra@ == self.config.server.extra_args.deep_view()[i as int]);
            }
            let ghost pre = args.deep_view();
            args.push(extra);
            i = i + 1;
            proof {
                let dv = self.config.server.extra_args.deep_view();
                assert(args.deep_view() =~~= pre.push(dv[i - 1]));
                assert(dv.take(i as int) =~~= dv.take(i - 1).push(dv[i - 1]));
                assert(args.deep_view() =~~= head + dv.take(i as int));
            }
        }
        args.push(self.config.server.jar.clone());
        args.push(String::from_str("nogui"));
        proof {
            assert(self.config.server.extra_args.deep_view().take(n as int)
                =~= self.config.server.extra_args.deep_view());
            assert(args.deep_view() =~= launch_args_spec(self.spec_config().server));
        }
        args
    }
}

/// The log sink is append-only: appending a line leaves every character
/// already written unchanged and in place at the front.
pub proof fn lemma_log_append_only(pre: Seq<char>, line: Seq<char>)
    ensures
        pre.is_prefix_of(pre + line),
        (pre + line).subrange(0, pre.len() as int) == pre,
{
    assert((pre + line).subrange(0, pre.len() as int) =~= pre);
}

} // verus!
