//! What holds of substitution and of the search for dangerous constructs,
//! whatever the template.

use vstd::prelude::*;
use crate::outside::shell_joined;
use crate::processor::{
    argument_block, arguments_token, clear_positional, dangerous_patterns, exempts_pattern,
    fill_positional, findings, pattern_exempted, pattern_finding, pattern_findings,
    positional_token, reference_finding, reference_findings, substituted, validation,
};
use crate::security::{ConfigView, SecurityValidationLevel};
use crate::text::{contains, decimal, digit_char, occurs_at, replaced, starts_with};
use crate::text_proofs::{
    begins_member, cannot_restore, holds_none, holds_only_first, lemma_occurs_pointwise,
    lemma_replaced_absent, lemma_replaced_clean, lemma_replaced_holds_to, lemma_replaced_keeps,
    lemma_replaced_marks, marks_begin, never_overlap,
};

verus! {

/// The character is a decimal digit.
pub open spec fn is_digit(c: char) -> bool {
    '0' <= c && c <= '9'
}

/// A decimal numeral is not empty and is made of digits.
pub proof fn lemma_decimal_digits(n: nat)
    ensures
        decimal(n).len() >= 1,
        forall|k: int| 0 <= k < decimal(n).len() ==> is_digit(#[trigger] decimal(n)[k]),
    decreases n,
{
    if n >= 10 {
        lemma_decimal_digits(n / 10);
        assert(is_digit(digit_char(n % 10)));
    } else {
        assert(is_digit(digit_char(n)));
    }
}

/// No placeholder of a single argument can overlap the placeholder for all
/// arguments.
pub proof fn lemma_placeholders_never_overlap(n: nat)
    ensures
        never_overlap(positional_token(n), arguments_token()),
{
    reveal_strlit("$ARGUMENTS");
    reveal_strlit("$");
    lemma_decimal_digits(n);
    let a = positional_token(n);
    let b = arguments_token();
    assert(a.len() == 1 + decimal(n).len());
    assert(a[0] == '$');
    assert forall|k: int| 1 <= k < a.len() implies #[trigger] a[k] != b[0] by {
        assert(a[k] == decimal(n)[k - 1]);
        assert(is_digit(decimal(n)[k - 1]));
    }
    assert(a[1] == decimal(n)[0]);
    assert(is_digit(decimal(n)[0]));
}

/// Filling in the arguments one by one leaves the placeholder for all
/// arguments where it is.
pub proof fn lemma_fill_keeps_token(body: Seq<char>, args: Seq<Seq<char>>, n: int)
    requires
        contains(body, arguments_token()),
    ensures
        contains(fill_positional(body, args, n), arguments_token()),
    decreases n,
{
    if n <= 0 || n > args.len() {
    } else {
        lemma_fill_keeps_token(body, args, n - 1);
        lemma_placeholders_never_overlap(n as nat);
        lemma_replaced_keeps(
            fill_positional(body, args, n - 1),
            positional_token(n as nat),
            args[n - 1],
            arguments_token(),
        );
    }
}

/// The arguments as they are put in for the placeholder for all arguments:
/// quoted for a shell and joined, or nothing where there are none.
pub open spec fn rendered_arguments(args: Seq<Seq<char>>) -> Seq<char> {
    if args.len() == 0 {
        Seq::empty()
    } else {
        shell_joined(args)
    }
}

/// A template that holds the placeholder for all arguments holds, once the
/// arguments are put in, the arguments quoted for a shell and joined.
pub proof fn lemma_arguments_appear(body: Seq<char>, args: Seq<Seq<char>>)
    requires
        contains(body, arguments_token()),
    ensures
        contains(substituted(body, args), rendered_arguments(args)),
{
    if args.len() == 0 {
        let out = substituted(body, args);
        assert(out.subrange(0, 0) =~= Seq::<char>::empty());
        assert(occurs_at(out, Seq::<char>::empty(), 0));
    } else {
        reveal_strlit("$ARGUMENTS");
        lemma_fill_keeps_token(body, args, args.len() as int);
        lemma_replaced_holds_to(
            fill_positional(body, args, args.len() as int),
            arguments_token(),
            shell_joined(args),
        );
    }
}

/// A rendering of the arguments that cannot form the placeholder for all
/// arguments anew, alone or with the text around it: it is not empty, holds
/// no `$`, and does not begin with a letter of the placeholder.
pub open spec fn keeps_clear(rendering: Seq<char>) -> bool {
    &&& rendering.len() > 0
    &&& forall|m: int| 0 <= m < rendering.len() ==> #[trigger] rendering[m] != '$'
    &&& forall|k: int|
        1 <= k < arguments_token().len() ==> #[trigger] arguments_token()[k] != rendering[0]
}

/// A template that holds the placeholder for all arguments holds it no
/// longer once the arguments are put in, where their rendering cannot form
/// it anew.
pub proof fn lemma_placeholder_is_consumed(body: Seq<char>, args: Seq<Seq<char>>)
    requires
        args.len() > 0,
        contains(body, arguments_token()),
        keeps_clear(shell_joined(args)),
    ensures
        !contains(substituted(body, args), arguments_token()),
{
    reveal_strlit("$ARGUMENTS");
    let token = arguments_token();
    assert(cannot_restore(shell_joined(args), token));
    lemma_replaced_clean(fill_positional(body, args, args.len() as int), token, shell_joined(args));
}

/// The placeholders that are still to be replaced once those of arguments
/// one to `k` are done, of `n` in all: those of arguments above `k`, and,
/// where `with_token` says so, the placeholder for all arguments.
pub open spec fn placeholders_after(k: int, n: int, with_token: bool) -> Set<Seq<char>> {
    Set::new(
        |t: Seq<char>|
            (with_token && t == arguments_token()) || exists|m: nat|
                k < m <= n && t == #[trigger] positional_token(m),
    )
}

/// Every `$` of the template begins a placeholder that a call with `n`
/// arguments replaces: the one for all arguments, or that of one of the
/// arguments one to `n`.
pub open spec fn dollars_begin_placeholders(body: Seq<char>, n: int) -> bool {
    marks_begin(body, '$', placeholders_after(0, n, true))
}

/// Each placeholder holds `$` at its start only.
pub proof fn lemma_placeholders_hold_one_dollar(k: int, n: int, with_token: bool)
    ensures
        forall|keep: Seq<char>|
            placeholders_after(k, n, with_token).contains(keep) ==> holds_only_first(keep, '$'),
        arguments_token().len() > 0,
        arguments_token()[0] == '$',
        forall|m: nat| (#[trigger] positional_token(m)).len() > 0 && positional_token(m)[0] == '$',
{
    reveal_strlit("$ARGUMENTS");
    reveal_strlit("$");
    assert forall|keep: Seq<char>| placeholders_after(k, n, with_token).contains(keep) implies holds_only_first(
        keep,
        '$',
    ) by {
        if with_token && keep == arguments_token() {
        } else {
            let m = choose|m: nat| k < m <= n && keep == #[trigger] positional_token(m);
            lemma_decimal_digits(m);
            assert forall|j: int| 1 <= j < keep.len() implies #[trigger] keep[j] != '$' by {
                assert(keep[j] == decimal(m)[j - 1]);
                assert(is_digit(decimal(m)[j - 1]));
            }
        }
    }
    assert forall|m: nat| (#[trigger] positional_token(m)).len() > 0 && positional_token(m)[0]
        == '$' by {
        lemma_decimal_digits(m);
    }
}

/// Once the placeholders of arguments one to `k` are filled in with
/// arguments that hold no `$`, every `$` begins a placeholder that is still
/// to be replaced.
pub proof fn lemma_fill_marks(body: Seq<char>, args: Seq<Seq<char>>, k: int)
    requires
        0 <= k <= args.len(),
        forall|a: int| 0 <= a < args.len() ==> holds_none(#[trigger] args[a], '$'),
        dollars_begin_placeholders(body, args.len() as int),
    ensures
        marks_begin(
            fill_positional(body, args, k),
            '$',
            placeholders_after(k, args.len() as int, true),
        ),
    decreases k,
{
    let n = args.len() as int;
    if k > 0 {
        lemma_fill_marks(body, args, k - 1);
        let t = fill_positional(body, args, k - 1);
        let from = positional_token(k as nat);
        let family = placeholders_after(k, n, true);
        lemma_placeholders_hold_one_dollar(k, n, true);
        assert forall|p: int| 0 <= p < t.len() && t[p] == '$' implies occurs_at(t, from, p)
            || begins_member(t, p, family) by {
            let keep = choose|keep: Seq<char>|
                placeholders_after(k - 1, n, true).contains(keep) && occurs_at(t, keep, p);
            if keep == arguments_token() {
                assert(family.contains(keep));
            } else {
                let m = choose|m: nat| k - 1 < m <= n && keep == #[trigger] positional_token(m);
                if m != k {
                    assert(family.contains(keep));
                }
            }
        }
        lemma_replaced_marks(t, from, args[k - 1], '$', family);
    }
}

/// Once the placeholders of arguments one to `k` are taken out, every `$`
/// begins the placeholder of one of the arguments above `k`, up to ten.
pub proof fn lemma_clear_marks(text: Seq<char>, k: int)
    requires
        0 <= k <= 10,
        marks_begin(text, '$', placeholders_after(0, 10, false)),
    ensures
        marks_begin(clear_positional(text, k), '$', placeholders_after(k, 10, false)),
    decreases k,
{
    if k > 0 {
        lemma_clear_marks(text, k - 1);
        let t = clear_positional(text, k - 1);
        let from = positional_token(k as nat);
        let family = placeholders_after(k, 10, false);
        lemma_placeholders_hold_one_dollar(k, 10, false);
        assert forall|p: int| 0 <= p < t.len() && t[p] == '$' implies occurs_at(t, from, p)
            || begins_member(t, p, family) by {
            let keep = choose|keep: Seq<char>|
                placeholders_after(k - 1, 10, false).contains(keep) && occurs_at(t, keep, p);
            let m = choose|m: nat| k - 1 < m <= 10 && keep == #[trigger] positional_token(m);
            if m != k {
                assert(family.contains(keep));
            }
        }
        lemma_replaced_marks(t, from, Seq::empty(), '$', family);
    }
}

/// A text without `$` does not hold the placeholder for all arguments.
pub proof fn lemma_no_dollar_no_token(text: Seq<char>)
    requires
        holds_none(text, '$'),
    ensures
        !contains(text, arguments_token()),
{
    reveal_strlit("$ARGUMENTS");
    if contains(text, arguments_token()) {
        let p = choose|p: int| occurs_at(text, arguments_token(), p);
        lemma_occurs_pointwise(text, arguments_token(), p);
        assert(text[p + 0int] == arguments_token()[0]);
    }
}

/// Where no argument and not their rendering holds a `$`, and every `$` of
/// the template begins a placeholder that the call replaces, the template
/// with the arguments put in holds no `$`, and so no placeholder.
pub proof fn lemma_placeholders_are_consumed(body: Seq<char>, args: Seq<Seq<char>>)
    requires
        args.len() > 0,
        contains(body, arguments_token()),
        forall|a: int| 0 <= a < args.len() ==> holds_none(#[trigger] args[a], '$'),
        holds_none(shell_joined(args), '$'),
        dollars_begin_placeholders(body, args.len() as int),
    ensures
        holds_none(substituted(body, args), '$'),
        !contains(substituted(body, args), arguments_token()),
{
    let n = args.len() as int;
    lemma_fill_marks(body, args, n);
    let t = fill_positional(body, args, n);
    let none = placeholders_after(n, n, false);
    lemma_placeholders_hold_one_dollar(n, n, false);
    assert forall|p: int| 0 <= p < t.len() && t[p] == '$' implies occurs_at(
        t,
        arguments_token(),
        p,
    ) || begins_member(t, p, none) by {
        let keep = choose|keep: Seq<char>|
            placeholders_after(n, n, true).contains(keep) && occurs_at(t, keep, p);
        assert(keep == arguments_token());
    }
    lemma_replaced_marks(t, arguments_token(), shell_joined(args), '$', none);
    let out = substituted(body, args);
    assert forall|q: int| 0 <= q < out.len() implies #[trigger] out[q] != '$' by {
        if out[q] == '$' {
            let keep = choose|keep: Seq<char>| none.contains(keep) && occurs_at(out, keep, q);
            assert(false);
        }
    }
    lemma_no_dollar_no_token(out);
}

/// Without arguments, a template in which every `$` begins a placeholder,
/// the one for all arguments or that of one of the arguments one to ten, is
/// left without `$`, and so without placeholder.
pub proof fn lemma_placeholders_are_cleared(body: Seq<char>)
    requires
        dollars_begin_placeholders(body, 10),
    ensures
        holds_none(substituted(body, Seq::empty()), '$'),
        !contains(substituted(body, Seq::empty()), arguments_token()),
{
    let rest = placeholders_after(0, 10, false);
    lemma_placeholders_hold_one_dollar(0, 10, false);
    assert forall|p: int| 0 <= p < body.len() && body[p] == '$' implies occurs_at(
        body,
        arguments_token(),
        p,
    ) || begins_member(body, p, rest) by {
        let keep = choose|keep: Seq<char>|
            placeholders_after(0, 10, true).contains(keep) && occurs_at(body, keep, p);
        if keep != arguments_token() {
            assert(rest.contains(keep));
        }
    }
    lemma_replaced_marks(body, arguments_token(), Seq::empty(), '$', rest);
    let t = replaced(body, arguments_token(), Seq::empty());
    lemma_clear_marks(t, 10);
    let out = substituted(body, Seq::empty());
    let none = placeholders_after(10, 10, false);
    assert forall|q: int| 0 <= q < out.len() implies #[trigger] out[q] != '$' by {
        if out[q] == '$' {
            let keep = choose|keep: Seq<char>| none.contains(keep) && occurs_at(out, keep, q);
            assert(false);
        }
    }
    lemma_no_dollar_no_token(out);
}

/// Filling in placeholders that the text does not hold leaves it as it is.
pub proof fn lemma_fill_absent(text: Seq<char>, args: Seq<Seq<char>>, n: int)
    requires
        forall|k: nat| 1 <= k <= n ==> !contains(text, #[trigger] positional_token(k)),
    ensures
        fill_positional(text, args, n) == text,
    decreases n,
{
    if n <= 0 || n > args.len() {
    } else {
        lemma_fill_absent(text, args, n - 1);
        assert(!contains(text, positional_token(n as nat)));
        lemma_replaced_absent(text, positional_token(n as nat), args[n - 1]);
    }
}

/// A template without the placeholder for all arguments is followed, where
/// there are arguments, by the argument block. Before the block stands the
/// template with the placeholders of single arguments filled in, which is
/// the template itself where it holds none of them.
pub proof fn lemma_arguments_are_appended(body: Seq<char>, args: Seq<Seq<char>>)
    requires
        args.len() > 0,
        !contains(body, arguments_token()),
    ensures
        substituted(body, args) == fill_positional(body, args, args.len() as int)
            + argument_block(shell_joined(args)),
        (forall|k: nat| 1 <= k <= args.len() ==> !contains(body, #[trigger] positional_token(k)))
            ==> substituted(body, args) == body + argument_block(shell_joined(args))
            && starts_with(substituted(body, args), body),
{
    if forall|k: nat| 1 <= k <= args.len() ==> !contains(body, #[trigger] positional_token(k)) {
        lemma_fill_absent(body, args, args.len() as int);
        let block = argument_block(shell_joined(args));
        assert((body + block).subrange(0, body.len() as int) =~= body);
    }
}

/// Taking out placeholders that the text does not hold leaves it as it is.
pub proof fn lemma_clear_absent(text: Seq<char>, n: int)
    requires
        forall|k: nat| 1 <= k <= n ==> !contains(text, #[trigger] positional_token(k)),
    ensures
        clear_positional(text, n) == text,
    decreases n,
{
    if n > 0 {
        lemma_clear_absent(text, n - 1);
        assert(!contains(text, positional_token(n as nat)));
        lemma_replaced_absent(text, positional_token(n as nat), Seq::empty());
    }
}

/// Without arguments a template that holds no placeholder, neither the one
/// for all arguments nor one of those of arguments one to ten, is left as
/// it is.
pub proof fn lemma_nothing_to_substitute(body: Seq<char>)
    requires
        !contains(body, arguments_token()),
        forall|k: nat| 1 <= k <= 10 ==> !contains(body, #[trigger] positional_token(k)),
    ensures
        substituted(body, Seq::empty()) == body,
{
    lemma_replaced_absent(body, arguments_token(), Seq::empty());
    lemma_clear_absent(body, 10);
}

/// Findings block under the level `Error`, warn under `Warn` and count for
/// nothing under `Off`; they are the same findings under each level.
pub proof fn lemma_level_decides(text: Seq<char>, exemptions: Seq<Seq<char>>)
    requires
        findings(text, exemptions).len() > 0,
    ensures
        ({
            let outcome = validation(
                text,
                ConfigView { level: SecurityValidationLevel::Error, ignored_patterns: exemptions },
            );
            outcome.should_error && !outcome.should_warn && outcome.risks == findings(
                text,
                exemptions,
            )
        }),
        ({
            let outcome = validation(
                text,
                ConfigView { level: SecurityValidationLevel::Warn, ignored_patterns: exemptions },
            );
            outcome.should_warn && !outcome.should_error && outcome.risks == findings(
                text,
                exemptions,
            )
        }),
        ({
            let outcome = validation(
                text,
                ConfigView { level: SecurityValidationLevel::Off, ignored_patterns: exemptions },
            );
            !outcome.should_warn && !outcome.should_error && outcome.risks.len() > 0
        }),
{
}

/// Without findings nothing blocks and nothing warns, under any level.
pub proof fn lemma_no_finding_no_flag(text: Seq<char>, policy: ConfigView)
    requires
        findings(text, policy.ignored_patterns).len() == 0,
    ensures
        !validation(text, policy).should_warn,
        !validation(text, policy).should_error,
{
}

/// Each finding for a pattern names a pattern that is not exempted.
pub proof fn lemma_pattern_findings_origin(
    matched: Seq<Option<bool>>,
    exemptions: Seq<Seq<char>>,
    n: int,
    finding: Seq<char>,
)
    requires
        pattern_findings(matched, exemptions, n).contains(finding),
    ensures
        exists|j: int|
            0 <= j < dangerous_patterns().len() && finding == pattern_finding(
                #[trigger] dangerous_patterns()[j],
            ) && !pattern_exempted(dangerous_patterns()[j], exemptions),
    decreases n,
{
    let patterns = dangerous_patterns();
    if n <= 0 || n > patterns.len() {
        assert(false);
    } else {
        let rest = pattern_findings(matched, exemptions, n - 1);
        if rest.contains(finding) {
            lemma_pattern_findings_origin(matched, exemptions, n - 1, finding);
        } else {
            let all = pattern_findings(matched, exemptions, n);
            let i = choose|i: int| 0 <= i < all.len() && all[i] == finding;
            if i < rest.len() {
                assert(rest[i] == finding);
            }
            assert(finding == pattern_finding(patterns[n - 1]));
        }
    }
}

/// Each finding for a reference names a reference.
pub proof fn lemma_reference_findings_origin(
    refs: Seq<Seq<char>>,
    exemptions: Seq<Seq<char>>,
    finding: Seq<char>,
)
    requires
        reference_findings(refs, exemptions).contains(finding),
    ensures
        exists|j: int| 0 <= j < refs.len() && finding == reference_finding(#[trigger] refs[j]),
    decreases refs.len(),
{
    if refs.len() == 0 {
        assert(false);
    } else {
        let front = refs.drop_last();
        let rest = reference_findings(front, exemptions);
        if rest.contains(finding) {
            lemma_reference_findings_origin(front, exemptions, finding);
            let j = choose|j: int|
                0 <= j < front.len() && finding == reference_finding(#[trigger] front[j]);
            assert(refs[j] == front[j]);
        } else {
            let all = reference_findings(refs, exemptions);
            let i = choose|i: int| 0 <= i < all.len() && all[i] == finding;
            if i < rest.len() {
                assert(rest[i] == finding);
            }
            assert(finding == reference_finding(refs[refs.len() - 1]));
        }
    }
}

/// A finding for a pattern is never a finding for a reference, and names
/// one pattern only.
pub proof fn lemma_findings_differ(p: Seq<char>, q: Seq<char>, r: Seq<char>)
    ensures
        pattern_finding(p) != reference_finding(r),
        pattern_finding(p) == pattern_finding(q) ==> p == q,
{
    reveal_strlit("Potentially dangerous pattern detected: ");
    reveal_strlit("Potentially unsafe file reference: ");
    assert(pattern_finding(p)[12] == 'd');
    assert(reference_finding(r)[12] == 'u');
    let head = "Potentially dangerous pattern detected: "@;
    if pattern_finding(p) == pattern_finding(q) {
        assert(p =~= (head + p).subrange(head.len() as int, (head + p).len() as int));
        assert(q =~= (head + q).subrange(head.len() as int, (head + q).len() as int));
    }
}

/// Once an exemption that covers a dangerous pattern is added, no finding
/// names that pattern, whatever the text.
pub proof fn lemma_exemption_hides_pattern(
    text: Seq<char>,
    exemptions: Seq<Seq<char>>,
    exemption: Seq<char>,
    pattern: Seq<char>,
)
    requires
        exempts_pattern(exemption, pattern),
    ensures
        !findings(text, exemptions.push(exemption)).contains(pattern_finding(pattern)),
{
    let all = exemptions.push(exemption);
    let finding = pattern_finding(pattern);
    let patterns = dangerous_patterns();
    let matched = crate::processor::pattern_matches(text);
    let first = pattern_findings(matched, all, patterns.len() as int);
    let second = reference_findings(crate::processor::file_references(text), all);
    assert(all[exemptions.len() as int] == exemption);
    assert(pattern_exempted(pattern, all));
    if (first + second).contains(finding) {
        let i = choose|i: int| 0 <= i < (first + second).len() && (first + second)[i] == finding;
        if i < first.len() {
            assert(first[i] == finding);
            lemma_pattern_findings_origin(matched, all, patterns.len() as int, finding);
            let j = choose|j: int|
                0 <= j < patterns.len() && finding == pattern_finding(#[trigger] patterns[j])
                    && !pattern_exempted(patterns[j], all);
            lemma_findings_differ(patterns[j], pattern, Seq::empty());
            assert(false);
        } else {
            assert(second[i - first.len()] == finding);
            lemma_reference_findings_origin(crate::processor::file_references(text), all, finding);
            let j = choose|j: int|
                0 <= j < crate::processor::file_references(text).len() && finding
                    == reference_finding(#[trigger] crate::processor::file_references(text)[j]);
            lemma_findings_differ(pattern, pattern, crate::processor::file_references(text)[j]);
            assert(false);
        }
    }
}

/// An exemption written with blanks covers the pattern that has `\s+` in
/// their place.
pub proof fn lemma_blank_exemption_covers(exemption: Seq<char>, pattern: Seq<char>)
    requires
        replaced(exemption, " "@, r"\s+"@) == pattern,
    ensures
        exempts_pattern(exemption, pattern),
{
    assert(pattern.subrange(0, pattern.len() as int) =~= pattern);
    assert(occurs_at(pattern, pattern, 0));
}

} // verus!
