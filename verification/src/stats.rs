use vstd::prelude::*;
use crate::json::{Json, opt_ref, opt_get, json_get, field_u64, get_opt, ju64};
use crate::text::{decimal, push_char, push_decimal};
use crate::formatting::{one_decimal, push_thousandths};
use crate::binary64::thousandths_tenths_spec;

verus! {

/// A token count in compact form: thousands with one decimal and `k` from
/// 1000 on, else the plain number.
pub open spec fn compact_count(n: u64) -> Seq<char> {
    if n >= 1000 { one_decimal(thousandths_tenths_spec(n as nat)).push('k') } else { decimal(n as nat) }
}

/// A count in the footer's form: `0`, or thousands with one decimal and `k`.
pub open spec fn footer_count(n: u64) -> Seq<char> {
    if n == 0 { "0"@ } else { one_decimal(thousandths_tenths_spec(n as nat)).push('k') }
}

/// Appends `compact_count(n)`.
pub fn push_compact(s: &mut String, n: u64)
    ensures
        final(s)@ == old(s)@ + compact_count(n),
{
    if n >= 1000 {
        push_thousandths(s, n);
        push_char(s, 'k');
    } else {
        push_decimal(s, n);
    }
}

/// Appends `footer_count(n)`.
pub fn push_footer_count(s: &mut String, n: u64)
    ensures
        final(s)@ == old(s)@ + footer_count(n),
{
    if n == 0 {
        s.append("0");
    } else {
        push_thousandths(s, n);
        push_char(s, 'k');
    }
}

/// One value of the statistics: field `key` of `p`, compact or plain.
pub open spec fn stat_value(p: Option<Json>, key: Seq<char>, compact: bool) -> Seq<char> {
    if compact { compact_count(field_u64(p, key)) } else { decimal(field_u64(p, key) as nat) }
}

/// Appends one value of the statistics.
fn push_stat(s: &mut String, p: Option<&Json>, key: &str, compact: bool)
    ensures
        final(s)@ == old(s)@ + stat_value(opt_ref(p), key@, compact),
{
    let n = ju64(p, key);
    if compact {
        push_compact(s, n);
    } else {
        push_decimal(s, n);
    }
}

/// The statistics text for a `getSessionStats` result, with `cost` the total
/// cost already written out.
pub open spec fn session_stats_text(result: Json, cost: Seq<char>) -> Seq<char> {
    let role = json_get(result, "roleTokens"@);
    let resolution = json_get(result, "resolutionTokens"@);
    let api = json_get(result, "apiUsage"@);
    "Context\n  window          "@ +
        stat_value(Some(result), "contextWindow"@, true) +
        "\n  used            "@ +
        stat_value(Some(result), "estimatedUsed"@, true) +
        " ("@ +
        stat_value(Some(result), "utilizationPercent"@, false) +
        "%)\n  remaining       "@ +
        stat_value(Some(result), "estimatedRemaining"@, true) +
        "\n  completion rsv  "@ +
        stat_value(Some(result), "completionReserve"@, true) +
        "\n\nSession\n  messages        "@ +
        stat_value(Some(result), "messageCount"@, false) +
        "\n  entries         "@ +
        stat_value(Some(result), "entryCount"@, false) +
        " ("@ +
        stat_value(Some(result), "pathEntryCount"@, false) +
        " on path, "@ +
        stat_value(Some(result), "compactedEntryCount"@, false) +
        " compacted)\n\nRole tokens\n  system          "@ +
        stat_value(role, "system"@, true) +
        "\n  user            "@ +
        stat_value(role, "user"@, true) +
        "\n  assistant       "@ +
        stat_value(role, "assistant"@, true) +
        "\n  tool            "@ +
        stat_value(role, "tool"@, true) +
        "\n\nResolution\n  full            "@ +
        stat_value(resolution, "full"@, true) +
        "\n  outlined        "@ +
        stat_value(resolution, "outlined"@, true) +
        "\n  summarized      "@ +
        stat_value(resolution, "summarized"@, true) +
        "\n  pinned          "@ +
        stat_value(resolution, "pinned"@, true) +
        "\n\nAPI usage\n  input           "@ +
        stat_value(api, "totalInputTokens"@, true) +
        "\n  output          "@ +
        stat_value(api, "totalOutputTokens"@, true) +
        "\n  cached          "@ +
        stat_value(api, "totalCachedTokens"@, true) +
        "\n  total           "@ +
        stat_value(api, "totalTokens"@, true) +
        "\n  requests        "@ +
        stat_value(api, "requestCount"@, false) +
        "\n  cost            $"@ +
        cost
}

/// Render a getSessionStats result as aligned text for the Stats modal;
/// `cost` is the total cost written with four decimals.
pub fn format_session_stats(result: &Json, cost: &str) -> (r: String)
    ensures
        r@ == session_stats_text(*result, cost@),
{
    let role = result.get("roleTokens");
    let resolution = result.get("resolutionTokens");
    let api = result.get("apiUsage");
    let mut s = String::new();
    s.append("Context\n  window          ");
    push_stat(&mut s, Some(result), "contextWindow", true);
    s.append("\n  used            ");
    push_stat(&mut s, Some(result), "estimatedUsed", true);
    s.append(" (");
    push_stat(&mut s, Some(result), "utilizationPercent", false);
    s.append("%)\n  remaining       ");
    push_stat(&mut s, Some(result), "estimatedRemaining", true);
    s.append("\n  completion rsv  ");
    push_stat(&mut s, Some(result), "completionReserve", true);
    s.append("\n\nSession\n  messages        ");
    push_stat(&mut s, Some(result), "messageCount", false);
    s.append("\n  entries         ");
    push_stat(&mut s, Some(result), "entryCount", false);
    s.append(" (");
    push_stat(&mut s, Some(result), "pathEntryCount", false);
    s.append(" on path, ");
    push_stat(&mut s, Some(result), "compactedEntryCount", false);
    s.append(" compacted)\n\nRole tokens\n  system          ");
    push_stat(&mut s, role, "system", true);
    s.append("\n  user            ");
    push_stat(&mut s, role, "user", true);
    s.append("\n  assistant       ");
    push_stat(&mut s, role, "assistant", true);
    s.append("\n  tool            ");
    push_stat(&mut s, role, "tool", true);
    s.append("\n\nResolution\n  full            ");
    push_stat(&mut s, resolution, "full", true);
    s.append("\n  outlined        ");
    push_stat(&mut s, resolution, "outlined", true);
    s.append("\n  summarized      ");
    push_stat(&mut s, resolution, "summarized", true);
    s.append("\n  pinned          ");
    push_stat(&mut s, resolution, "pinned", true);
    s.append("\n\nAPI usage\n  input           ");
    push_stat(&mut s, api, "totalInputTokens", true);
    s.append("\n  output          ");
    push_stat(&mut s, api, "totalOutputTokens", true);
    s.append("\n  cached          ");
    push_stat(&mut s, api, "totalCachedTokens", true);
    s.append("\n  total           ");
    push_stat(&mut s, api, "totalTokens", true);
    s.append("\n  requests        ");
    push_stat(&mut s, api, "requestCount", false);
    s.append("\n  cost            $");
    s.append(cost);
    s
}

} // verus!
