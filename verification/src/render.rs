use vstd::prelude::*;

use vstd::utf8::encode_utf8;

use crate::codemap::{CodeMap, CodeMapV};
use crate::diagnostic::{Diagnostic, DiagnosticV, LabelV, Severity};

verus! {

/// The text tag a severity is rendered with.
pub open spec fn spec_severity_tag(severity: Severity) -> Seq<char> {
    match severity {
        Severity::Error => "error"@,
        Severity::Warning => "warning"@,
        Severity::Note => "note"@,
        Severity::Help => "help"@,
    }
}

/// The decimal digits of `n`, most significant first.
pub open spec fn spec_decimal(n: int) -> Seq<u8>
    decreases n,
{
    if n < 10 {
        seq![(48 + if n < 0 { 0int } else { n }) as u8]
    } else {
        spec_decimal(n / 10).push((48 + n % 10) as u8)
    }
}

/// How one label is rendered: a file:line:column pointer line when the
/// span's start resolves against the registry, and nothing when it does not
/// (the diagnostic then falls back to its bare message).  Line and column
/// are displayed 1-based.
pub open spec fn spec_render_label(label: LabelV, registry: CodeMapV) -> Seq<u8> {
    match registry.spec_location(label.span) {
        Err(_) => Seq::<u8>::empty(),
        Ok(loc) => {
            let name = registry.spec_get(label.span.source_id)->Some_0.name;
            encode_utf8(" --> "@) + encode_utf8(name.text()) + encode_utf8(":"@) + spec_decimal(
                loc.line + 1,
            ) + encode_utf8(":"@) + spec_decimal(loc.column + 1) + encode_utf8("\n"@)
        },
    }
}

/// The rendering of a sequence of labels, in insertion order.
pub open spec fn spec_render_labels(labels: Seq<LabelV>, registry: CodeMapV) -> Seq<u8>
    decreases labels.len(),
{
    if labels.len() == 0 {
        Seq::<u8>::empty()
    } else {
        spec_render_labels(labels.drop_last(), registry) + spec_render_label(
            labels.last(),
            registry,
        )
    }
}

/// The rendering of the free-standing notes, in insertion order.
pub open spec fn spec_render_notes(notes: Seq<Seq<char>>) -> Seq<u8>
    decreases notes.len(),
{
    if notes.len() == 0 {
        Seq::<u8>::empty()
    } else {
        spec_render_notes(notes.drop_last()) + encode_utf8(" = "@) + encode_utf8(notes.last())
            + encode_utf8("\n"@)
    }
}

/// The whole rendering of a diagnostic: its severity tag and message, one
/// pointer line per resolvable label, then the notes.
pub open spec fn spec_render(diagnostic: DiagnosticV, registry: CodeMapV) -> Seq<u8> {
    encode_utf8(spec_severity_tag(diagnostic.severity)) + encode_utf8(": "@) + encode_utf8(
        diagnostic.message,
    ) + encode_utf8("\n"@) + spec_render_labels(diagnostic.labels, registry) + spec_render_notes(
        diagnostic.notes,
    )
}

/// Appends the UTF-8 bytes of `text` to `out`.
fn push_str_bytes(out: &mut Vec<u8>, text: &str)
    ensures
        final(out)@ == old(out)@ + encode_utf8(text@),
{
    let bytes = text.as_bytes();
    let ghost pre = out@;
    let mut i: usize = 0;
    while i < bytes.len()
        invariant
            i <= bytes@.len(),
            bytes@ == encode_utf8(text@),
            out@ =~= pre + bytes@.subrange(0, i as int),
        decreases bytes@.len() - i,
    {
        out.push(bytes[i]);
        proof {
            assert(out@ =~= pre + bytes@.subrange(0, i + 1 as int));
        }
        i += 1;
    }
    proof {
        assert(out@ =~= pre + bytes@);
    }
}

/// Appends the decimal digits of `n` to `out`.
fn push_decimal(out: &mut Vec<u8>, n: u64)
    ensures
        final(out)@ == old(out)@ + spec_decimal(n as int),
    decreases n,
{
    if n < 10 {
        out.push(48 + (n as u8));
        proof {
            assert(old(out)@.push((48 + n) as u8) =~= old(out)@ + spec_decimal(n as int));
        }
    } else {
        let ghost pre = out@;
        push_decimal(out, n / 10);
        out.push(48 + ((n % 10) as u8));
        proof {
            assert(pre + spec_decimal(n as int / 10) + seq![(48 + n as int % 10) as u8] =~= pre
                + spec_decimal(n as int));
            assert(out@ =~= pre + spec_decimal(n as int / 10) + seq![(48 + n as int % 10) as u8]);
        }
    }
}

/// Renders `diagnostic` against `registry` into `out`: the severity tag and
/// message, a ` --> name:line:column` pointer for every label whose span
/// resolves, then the notes.
pub fn render_into(out: &mut Vec<u8>, registry: &CodeMap, diagnostic: &Diagnostic)
    requires
        registry@.wf(),
    ensures
        final(out)@ == old(out)@ + spec_render(diagnostic@, registry@),
{
    let ghost pre = out@;
    match diagnostic.severity {
        Severity::Error => push_str_bytes(out, "error"),
        Severity::Warning => push_str_bytes(out, "warning"),
        Severity::Note => push_str_bytes(out, "note"),
        Severity::Help => push_str_bytes(out, "help"),
    }
    push_str_bytes(out, ": ");
    push_str_bytes(out, diagnostic.message.as_str());
    push_str_bytes(out, "\n");
    let ghost labels = diagnostic@.labels;
    proof {
        assert(labels.subrange(0, 0) =~= Seq::<LabelV>::empty());
    }
    let mut i: usize = 0;
    while i < diagnostic.labels.len()
        invariant
            registry@.wf(),
            i <= diagnostic.labels@.len(),
            labels == diagnostic@.labels,
            labels.len() == diagnostic.labels@.len(),
            out@ =~= pre + encode_utf8(spec_severity_tag(diagnostic@.severity)) + encode_utf8(": "@)
                + encode_utf8(diagnostic@.message) + encode_utf8("\n"@) + spec_render_labels(
                labels.subrange(0, i as int),
                registry@,
            ),
        decreases diagnostic.labels@.len() - i,
    {
        let label = &diagnostic.labels[i];
        proof {
            assert(labels[i as int] == diagnostic.labels@[i as int]@);
            assert(labels.subrange(0, i + 1 as int).drop_last() =~= labels.subrange(0, i as int));
            assert(labels.subrange(0, i + 1 as int).last() == labels[i as int]);
        }
        match registry.location(&label.span) {
            Err(_) => {
                proof {
                    assert(spec_render_label(labels[i as int], registry@) =~= Seq::<u8>::empty());
                    assert(out@ =~= pre + encode_utf8(spec_severity_tag(diagnostic@.severity))
                        + encode_utf8(": "@) + encode_utf8(diagnostic@.message) + encode_utf8("\n"@)
                        + spec_render_labels(labels.subrange(0, i + 1 as int), registry@));
                }
            },
            Ok(loc) => {
                push_str_bytes(out, " --> ");
                match registry.name(label.span.source_id()) {
                    Ok(name) => {
                        match name.as_str() {
                            Some(text) => push_str_bytes(out, text),
                            None => {
                                proof {
                                    assert(false);
                                }
                            },
                        }
                    },
                    Err(_) => {
                        proof {
                            assert(false);
                        }
                    },
                }
                push_str_bytes(out, ":");
                push_decimal(out, (loc.line as u64) + 1);
                push_str_bytes(out, ":");
                push_decimal(out, (loc.column as u64) + 1);
                push_str_bytes(out, "\n");
                proof {
                    assert(out@ =~= pre + encode_utf8(spec_severity_tag(diagnostic@.severity))
                        + encode_utf8(": "@) + encode_utf8(diagnostic@.message) + encode_utf8("\n"@)
                        + spec_render_labels(labels.subrange(0, i + 1 as int), registry@));
                }
            },
        }
        i += 1;
    }
    proof {
        assert(labels.subrange(0, labels.len() as int) =~= labels);
    }
    let ghost notes = diagnostic@.notes;
    proof {
        assert(notes.subrange(0, 0) =~= Seq::<Seq<char>>::empty());
        assert(spec_render_notes(notes.subrange(0, 0)) =~= Seq::<u8>::empty());
        assert(out@ =~= pre + encode_utf8(spec_severity_tag(diagnostic@.severity)) + encode_utf8(
            ": "@,
        ) + encode_utf8(diagnostic@.message) + encode_utf8("\n"@) + spec_render_labels(
            labels,
            registry@,
        ) + spec_render_notes(notes.subrange(0, 0)));
    }
    let mut j: usize = 0;
    while j < diagnostic.notes.len()
        invariant
            j <= diagnostic.notes@.len(),
            notes == diagnostic@.notes,
            notes.len() == diagnostic.notes@.len(),
            out@ =~= pre + encode_utf8(spec_severity_tag(diagnostic@.severity)) + encode_utf8(": "@)
                + encode_utf8(diagnostic@.message) + encode_utf8("\n"@) + spec_render_labels(
                labels,
                registry@,
            ) + spec_render_notes(notes.subrange(0, j as int)),
        decreases diagnostic.notes@.len() - j,
    {
        proof {
            assert(notes[j as int] == diagnostic.notes@[j as int]@);
            assert(notes.subrange(0, j + 1 as int).drop_last() =~= notes.subrange(0, j as int));
            assert(notes.subrange(0, j + 1 as int).last() == notes[j as int]);
        }
        push_str_bytes(out, " = ");
        push_str_bytes(out, diagnostic.notes[j].as_str());
        push_str_bytes(out, "\n");
        proof {
            assert(out@ =~= pre + encode_utf8(spec_severity_tag(diagnostic@.severity))
                + encode_utf8(": "@) + encode_utf8(diagnostic@.message) + encode_utf8("\n"@)
                + spec_render_labels(labels, registry@) + spec_render_notes(
                notes.subrange(0, j + 1 as int),
            ));
        }
        j += 1;
    }
    proof {
        assert(notes.subrange(0, notes.len() as int) =~= notes);
    }
}

} // verus!
