//! The resource guard: the size policy applied to a finished download, the
//! cleanup plan that goes with it, and the messages shown to the caller.
use vstd::prelude::*;
use crate::text::{decimal_of, digit_char, push_char, push_decimal, push_str};

verus! {

pub const KB: u64 = 1_000;
pub const MB: u64 = 1_000_000;
pub const GB: u64 = 1_000_000_000;
pub const TB: u64 = 1_000_000_000_000;
pub const PB: u64 = 1_000_000_000_000_000;

/// `bytes / factor` in hundredths, rounded half up.
pub open spec fn hundredths(bytes: nat, factor: nat) -> nat
    recommends
        factor > 0,
{
    (bytes * 100 + factor / 2) / factor
}

/// `bytes` in the unit `factor`, with up to two decimals and no trailing
/// zero after the point, followed by a space and the unit's letter and `B`.
pub open spec fn scaled_text(bytes: nat, factor: nat, unit: char) -> Seq<char> {
    let h = hundredths(bytes, factor);
    let whole = h / 100;
    let frac = h % 100;
    let number = if frac == 0 {
        decimal_of(whole)
    } else if frac % 10 == 0 {
        decimal_of(whole) + seq!['.', digit_char(frac / 10)]
    } else {
        decimal_of(whole) + seq!['.', digit_char(frac / 10), digit_char(frac % 10)]
    };
    number + seq![' ', unit, 'B']
}

/// Human-readable size: the largest decimal unit that is at most `bytes`.
pub open spec fn bytes_text(bytes: nat) -> Seq<char> {
    if bytes == 0 {
        seq!['0', ' ', 'B']
    } else if bytes >= PB {
        scaled_text(bytes, PB as nat, 'P')
    } else if bytes >= TB {
        scaled_text(bytes, TB as nat, 'T')
    } else if bytes >= GB {
        scaled_text(bytes, GB as nat, 'G')
    } else if bytes >= MB {
        scaled_text(bytes, MB as nat, 'M')
    } else if bytes >= KB {
        scaled_text(bytes, KB as nat, 'K')
    } else {
        decimal_of(bytes) + seq![' ', 'B']
    }
}

fn push_scaled(out: &mut String, bytes: u64, factor: u64, unit: char)
    requires
        factor > 0,
    ensures
        final(out)@ == old(out)@ + scaled_text(bytes as nat, factor as nat, unit),
{
    let f = factor as u128;
    assert((bytes as u128) * 100 <= 0xffff_ffff_ffff_ffff * 100) by (nonlinear_arith);
    let h: u128 = ((bytes as u128) * 100 + f / 2) / f;
    let whole = h / 100;
    let frac = h % 100;
    push_decimal(out, whole);
    if frac != 0 {
        push_char(out, '.');
        push_decimal(out, frac / 10);
        if frac % 10 != 0 {
            push_decimal(out, frac % 10);
        }
    }
    push_char(out, ' ');
    push_char(out, unit);
    push_char(out, 'B');
    assert(decimal_of((frac / 10) as nat) == seq![digit_char((frac / 10) as nat)]);
    assert(decimal_of((frac % 10) as nat) == seq![digit_char((frac % 10) as nat)]);
    assert(final(out)@ =~= old(out)@ + scaled_text(bytes as nat, factor as nat, unit));
}

/// Formats a byte count into a human-readable string.
pub fn format_bytes(bytes: u64) -> (r: String)
    ensures
        r@ == bytes_text(bytes as nat),
{
    let mut out = String::new();
    if bytes == 0 {
        push_char(&mut out, '0');
        push_char(&mut out, ' ');
        push_char(&mut out, 'B');
    } else if bytes >= PB {
        push_scaled(&mut out, bytes, PB, 'P');
    } else if bytes >= TB {
        push_scaled(&mut out, bytes, TB, 'T');
    } else if bytes >= GB {
        push_scaled(&mut out, bytes, GB, 'G');
    } else if bytes >= MB {
        push_scaled(&mut out, bytes, MB, 'M');
    } else if bytes >= KB {
        push_scaled(&mut out, bytes, KB, 'K');
    } else {
        push_decimal(&mut out, bytes as u128);
        push_char(&mut out, ' ');
        push_char(&mut out, 'B');
    }
    assert(out@ =~= bytes_text(bytes as nat));
    out
}

/// The guild's boost level, as far as the attachment limit depends on it.
#[derive(Clone, Copy, Debug, PartialEq, Eq, Structural)]
pub enum PremiumTier {
    Tier0,
    Tier1,
    Tier2,
    Tier3,
    /// A level this library does not know.
    Other,
}

pub open spec fn byte_limit_of(tier: Option<PremiumTier>) -> u64 {
    match tier {
        Some(PremiumTier::Tier2) => 50_000_000,
        Some(PremiumTier::Tier3) => 100_000_000,
        _ => 10_000_000,
    }
}

/// Returns the maximum attachment size for a guild of the given level; no
/// guild, or an unknown level, gets the base limit.
pub fn attachment_byte_limit(tier: Option<PremiumTier>) -> (r: u64)
    ensures
        r == byte_limit_of(tier),
{
    match tier {
        Some(PremiumTier::Tier0) | Some(PremiumTier::Tier1) => 10 * MB,
        Some(PremiumTier::Tier2) => 50 * MB,
        Some(PremiumTier::Tier3) => 100 * MB,
        _ => 10 * MB,
    }
}

/// One step of what happens to a downloaded file once its job has finished.
#[derive(Clone, Copy, Debug, PartialEq, Eq, Structural)]
pub enum GuardAction {
    /// Hand the file to the caller's delivery path.
    Deliver,
    /// Remove the file from disk; a failure here is only logged.
    Delete,
    /// Tell the caller the file is over the limit, citing both sizes.
    RejectTooLarge { limit: u64, size: u64 },
    /// Tell the caller the file's size could not be read.
    RejectUnreadable,
}

/// The steps for a finished file whose size was read as `size` (`None`
/// when it could not be read), against the byte limit `limit`.
pub open spec fn guard_plan(size: Option<u64>, limit: u64) -> Seq<GuardAction> {
    match size {
        None => seq![GuardAction::Delete, GuardAction::RejectUnreadable],
        Some(s) => if s > limit {
            seq![GuardAction::Delete, GuardAction::RejectTooLarge { limit, size: s }]
        } else {
            seq![GuardAction::Deliver, GuardAction::Delete]
        },
    }
}

/// Decides what to do with a finished download: over the limit, or of
/// unknown size, the file is deleted and the caller told why; otherwise it is
/// delivered and deleted afterwards.
pub fn guard_actions(size: Option<u64>, limit: u64) -> (r: Vec<GuardAction>)
    ensures
        r@ == guard_plan(size, limit),
{
    let mut r: Vec<GuardAction> = Vec::new();
    match size {
        None => {
            r.push(GuardAction::Delete);
            r.push(GuardAction::RejectUnreadable);
        },
        Some(s) => {
            if s > limit {
                r.push(GuardAction::Delete);
                r.push(GuardAction::RejectTooLarge { limit, size: s });
            } else {
                r.push(GuardAction::Deliver);
                r.push(GuardAction::Delete);
            }
        },
    }
    assert(r@ =~= guard_plan(size, limit));
    r
}

/// Indices of the plan's steps that delete the file.
pub open spec fn delete_steps(plan: Seq<GuardAction>) -> Set<int> {
    Set::new(|i: int| 0 <= i < plan.len() && plan[i] == GuardAction::Delete)
}

/// Every plan deletes the file exactly once, and nothing is delivered after
/// the deletion.
pub proof fn lemma_guard_deletes_once(size: Option<u64>, limit: u64)
    ensures
        ({
            let plan = guard_plan(size, limit);
            exists|d: int|
                delete_steps(plan) == set![d] && forall|j: int|
                    d < j < plan.len() ==> plan[j] != GuardAction::Deliver
        }),
{
    let plan = guard_plan(size, limit);
    let d: int = if plan[0] == GuardAction::Delete { 0 } else { 1 };
    assert(delete_steps(plan) =~= set![d]);
}

/// A file over the limit is never delivered: the caller is told both the
/// limit and the size, a report distinct from every outcome of a file within
/// the limit, and the file is deleted.
pub proof fn lemma_over_limit_rejected(size: u64, limit: u64, other: u64)
    requires
        size > limit,
        other <= limit,
    ensures
        guard_plan(Some(size), limit).contains(GuardAction::RejectTooLarge { limit, size }),
        guard_plan(Some(size), limit).contains(GuardAction::Delete),
        !guard_plan(Some(size), limit).contains(GuardAction::Deliver),
        guard_plan(Some(size), limit) != guard_plan(Some(other), limit),
{
    let plan = guard_plan(Some(size), limit);
    assert(plan[1] == GuardAction::RejectTooLarge { limit, size });
    assert(plan[0] == GuardAction::Delete);
    assert(guard_plan(Some(other), limit)[0] != plan[0]);
}

/// What the caller is told when a file is over the limit.
pub open spec fn too_large_text(link: Seq<char>, limit: u64, size: u64) -> Seq<char> {
    "File for [[link]](<"@ + link + ">) too large to embed, server limit is "@ + bytes_text(
        limit as nat,
    ) + ", file size is "@ + bytes_text(size as nat) + ", sent link instead"@
}

/// The message for a file over the limit: it names the link, the limit and
/// the file's size.
pub fn too_large_message(link: &str, limit: u64, size: u64) -> (r: String)
    ensures
        r@ == too_large_text(link@, limit, size),
{
    let mut out = String::new();
    push_str(&mut out, "File for [[link]](<");
    push_str(&mut out, link);
    push_str(&mut out, ">) too large to embed, server limit is ");
    let l = format_bytes(limit);
    push_str(&mut out, l.as_str());
    push_str(&mut out, ", file size is ");
    let z = format_bytes(size);
    push_str(&mut out, z.as_str());
    push_str(&mut out, ", sent link instead");
    assert(out@ =~= too_large_text(link@, limit, size));
    out
}

/// The line that credits a delivered file or link to whoever asked for it.
/// With `preview` the link is left bare so the platform may show a preview
/// of it; otherwise it is wrapped in angle brackets.
pub open spec fn caption_text(name: Seq<char>, link: Seq<char>, preview: bool) -> Seq<char> {
    if preview {
        "-# sent by: "@ + name + " - [[link]]("@ + link + ")"@
    } else {
        "-# sent by: "@ + name + " - [[link]](<"@ + link + ">)"@
    }
}

/// Builds the caption for a delivered file (`preview` false) or for the
/// bare link sent in place of a file that was too large (`preview` true).
pub fn sent_by_caption(name: &str, link: &str, preview: bool) -> (r: String)
    ensures
        r@ == caption_text(name@, link@, preview),
{
    let mut out = String::new();
    push_str(&mut out, "-# sent by: ");
    push_str(&mut out, name);
    if preview {
        push_str(&mut out, " - [[link]](");
        push_str(&mut out, link);
        push_str(&mut out, ")");
    } else {
        push_str(&mut out, " - [[link]](<");
        push_str(&mut out, link);
        push_str(&mut out, ">)");
    }
    assert(out@ =~= caption_text(name@, link@, preview));
    out
}

} // verus!
