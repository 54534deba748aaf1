//! The handshake-wrapped program and the lines the wrapped program reports.
//!
//! The submitted program text is indented and embedded in a wrapper that
//! connects back to the driver's handshake listener, echoes the goal id it is
//! sent, runs the program body and then reports `ok` or `error`.
use crate::text::{chars_of, same_text};
use vstd::prelude::*;

verus! {

/// Port on which the driver listens for the wrapped program's handshake.
pub const HANDSHAKE_PORT: u16 = 50000;

pub const SCRIPT_HEAD: &'static str = "\ndef run_script():\n";

pub const HANDSHAKE_HEAD: &'static str = "\n\n  def handshake():\n";

pub const SOCKET_OPEN_HEAD: &'static str = "    socket_open(\"";

pub const SOCKET_OPEN_TAIL: &'static str = "\", 50000, \"ur_driver_socket\")";

pub const HANDSHAKE_BODY: &'static str = "
    line_from_server = socket_read_line(\"ur_driver_socket\", timeout=1.0)
    if(str_empty(line_from_server)):
      return False
    else:
      socket_send_line(line_from_server, \"ur_driver_socket\")
      return True
    end
  end

  if(handshake()):
    result = script()
    if(result):
      socket_send_line(\"ok\", \"ur_driver_socket\")
    else:
      socket_send_line(\"error\", \"ur_driver_socket\")
    end
  else:
";

pub const POPUP_HEAD: &'static str = "    popup(\"handshake failure with host ";

pub const POPUP_TAIL: &'static str = ", not moving.\")";

pub const SCRIPT_TAIL: &'static str = "
  end

  socket_close(\"ur_driver_socket\")
end

run_script()
";

/// The pieces of `s` between its newlines, as `str::split('\n')` yields them:
/// always at least one, the last one after the last newline.
pub open spec fn newline_pieces(s: Seq<char>) -> Seq<Seq<char>>
    decreases s.len(),
{
    if s.len() == 0 {
        seq![Seq::empty()]
    } else {
        let init = newline_pieces(s.drop_last());
        if s.last() == '\n' {
            init.push(Seq::empty())
        } else {
            init.update(init.len() - 1, init.last().push(s.last()))
        }
    }
}

/// A line ended by `\r\n` loses its `\r`.
pub open spec fn strip_cr(l: Seq<char>) -> Seq<char> {
    if l.len() > 0 && l.last() == '\r' {
        l.drop_last()
    } else {
        l
    }
}

/// The lines of `s`, as `str::lines` yields them: pieces ended by a newline
/// lose a trailing `\r`, and a final empty piece is no line.
pub open spec fn lines_of(s: Seq<char>) -> Seq<Seq<char>> {
    let p = newline_pieces(s);
    let ended = p.drop_last().map_values(|l: Seq<char>| strip_cr(l));
    if p.last().len() == 0 {
        ended
    } else {
        ended.push(p.last())
    }
}

/// `ls` joined with newlines between them.
pub open spec fn join_lines(ls: Seq<Seq<char>>) -> Seq<char>
    decreases ls.len(),
{
    if ls.len() == 0 {
        Seq::empty()
    } else if ls.len() == 1 {
        ls[0]
    } else {
        join_lines(ls.drop_last()) + seq!['\n'] + ls.last()
    }
}

/// A line of the submitted program, as it stands inside the wrapper.
pub open spec fn indent(l: Seq<char>) -> Seq<char> {
    seq![' ', ' '] + l
}

/// The submitted program, each line indented by two spaces.
pub open spec fn indented(program: Seq<char>) -> Seq<char> {
    join_lines(lines_of(program).map_values(|l: Seq<char>| indent(l)))
}

/// The complete wrapped program for `program`, connecting back to `host`.
pub open spec fn wrapped_script(program: Seq<char>, host: Seq<char>) -> Seq<char> {
    SCRIPT_HEAD@ + indented(program) + HANDSHAKE_HEAD@ + SOCKET_OPEN_HEAD@ + host
        + SOCKET_OPEN_TAIL@ + HANDSHAKE_BODY@ + POPUP_HEAD@ + host + POPUP_TAIL@ + SCRIPT_TAIL@
}

proof fn lemma_join_push(ls: Seq<Seq<char>>, l: Seq<char>)
    ensures
        join_lines(ls.push(l)) == if ls.len() == 0 {
            l
        } else {
            join_lines(ls) + seq!['\n'] + l
        },
{
    assert(ls.push(l).drop_last() =~= ls);
}

/// The submitted program with each line indented by two spaces.
fn indent_program(program: &str) -> (r: String)
    ensures
        r@ == indented(program@),
{
    let s = chars_of(program);
    let n = s.len();
    let mut out = String::new();
    let mut start: usize = 0;
    let ghost mut done: Seq<Seq<char>> = Seq::empty();
    proof {
        assert(program@.subrange(0, 0) =~= Seq::<char>::empty());
    }
    for i in 0..n
        invariant
            n == s@.len(),
            s@ == program@,
            start <= i,
            (start > 0) == (done.len() > 0),
            newline_pieces(program@.subrange(0, i as int)) == done.push(
                program@.subrange(start as int, i as int),
            ),
            out@ == join_lines(done.map_values(|l: Seq<char>| indent(strip_cr(l)))),
    {
        let ghost prefix = program@.subrange(0, i + 1);
        proof {
            assert(prefix.drop_last() =~= program@.subrange(0, i as int));
            assert(prefix.last() == s@[i as int]);
        }
        if s[i] == '\n' {
            let end = if i > start && s[i - 1] == '\r' {
                i - 1
            } else {
                i
            };
            let ghost piece = program@.subrange(start as int, i as int);
            proof {
                if i > start && s@[i - 1] == '\r' {
                    assert(strip_cr(piece) =~= program@.subrange(start as int, end as int));
                } else {
                    assert(strip_cr(piece) =~= program@.subrange(start as int, end as int));
                }
                let f = |l: Seq<char>| indent(strip_cr(l));
                assert(done.push(piece).map_values(f) =~= done.map_values(f).push(f(piece)));
                lemma_join_push(done.map_values(f), f(piece));
            }
            let line = program.substring_char(start, end);
            if start > 0 {
                out.append("\n");
            }
            out.append("  ");
            out.append(line);
            proof {
                reveal_strlit("\n");
                reveal_strlit("  ");
                done = done.push(piece);
                assert(program@.subrange(i + 1, i + 1) =~= Seq::<char>::empty());
            }
            start = i + 1;
        } else {
            proof {
                assert(program@.subrange(start as int, i + 1) =~= program@.subrange(
                    start as int,
                    i as int,
                ).push(s@[i as int]));
            }
        }
    }
    let ghost cur = program@.subrange(start as int, n as int);
    proof {
        reveal_strlit("\n");
        reveal_strlit("  ");
        assert(program@.subrange(0, n as int) =~= program@);
        let p = newline_pieces(program@);
        assert(p.drop_last() =~= done);
        assert(p.last() == cur);
        let f = |l: Seq<char>| indent(strip_cr(l));
        let g = |l: Seq<char>| indent(l);
        let ended = p.drop_last().map_values(|l: Seq<char>| strip_cr(l));
        assert(ended.map_values(g) =~= done.map_values(f));
        if cur.len() > 0 {
            assert(lines_of(program@).map_values(g) =~= done.map_values(f).push(g(cur)));
            lemma_join_push(done.map_values(f), g(cur));
        } else {
            assert(lines_of(program@).map_values(g) =~= done.map_values(f));
        }
    }
    if start < n {
        let line = program.substring_char(start, n);
        if start > 0 {
            out.append("\n");
        }
        out.append("  ");
        out.append(line);
    }
    out
}

/// Wraps `program` in the handshake protocol: the wrapped program connects
/// to `host_address` on [`HANDSHAKE_PORT`], echoes the line it receives, runs
/// the program body and reports `ok` or `error`; if the handshake fails it
/// shows a popup and does not run the body.
pub fn generate_ur_script(program: &str, host_address: &str) -> (r: String)
    ensures
        r@ == wrapped_script(program@, host_address@),
{
    let body = indent_program(program);
    let mut out = String::from_str(SCRIPT_HEAD);
    out.append(body.as_str());
    out.append(HANDSHAKE_HEAD);
    out.append(SOCKET_OPEN_HEAD);
    out.append(host_address);
    out.append(SOCKET_OPEN_TAIL);
    out.append(HANDSHAKE_BODY);
    out.append(POPUP_HEAD);
    out.append(host_address);
    out.append(POPUP_TAIL);
    out.append(SCRIPT_TAIL);
    out
}

/// The verdict a line sent by the wrapped program after its handshake
/// carries: `ok` is success, `error` is failure, and any other line is
/// feedback, which settles nothing.
pub open spec fn verdict_of(line: Seq<char>) -> Option<bool> {
    if line == "ok"@ {
        Some(true)
    } else if line == "error"@ {
        Some(false)
    } else {
        None
    }
}

/// The verdict that `line`, sent by the wrapped program after its handshake,
/// carries, if any.
pub fn report_verdict(line: &str) -> (r: Option<bool>)
    ensures
        r == verdict_of(line@),
{
    if same_text(line, "ok") {
        Some(true)
    } else if same_text(line, "error") {
        Some(false)
    } else {
        None
    }
}

} // verus!
