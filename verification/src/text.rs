//! The text of the trading window: numbers in decimal, player names, and
//! localized templates with the player's name filled in.
use vstd::prelude::*;
use vstd::string::*;

verus! {

/// The decimal digit for `d`, for `d` below ten.
pub open spec fn digit_char(d: nat) -> char {
    if d == 0 {
        '0'
    } else if d == 1 {
        '1'
    } else if d == 2 {
        '2'
    } else if d == 3 {
        '3'
    } else if d == 4 {
        '4'
    } else if d == 5 {
        '5'
    } else if d == 6 {
        '6'
    } else if d == 7 {
        '7'
    } else if d == 8 {
        '8'
    } else {
        '9'
    }
}

/// `n` written in decimal, without sign or leading zeros.
pub open spec fn decimal(n: nat) -> Seq<char>
    decreases n,
{
    if n < 10 {
        seq![digit_char(n)]
    } else {
        decimal(n / 10).push(digit_char(n % 10))
    }
}

/// `s` with every occurrence of `from`, taken from left to right without
/// overlap, replaced by `to`. An empty `from` leaves `s` as it is.
pub open spec fn replaced(s: Seq<char>, from: Seq<char>, to: Seq<char>) -> Seq<char>
    decreases s.len(),
{
    if s.len() == 0 {
        Seq::empty()
    } else if from.len() > 0 && from.is_prefix_of(s) {
        to + replaced(s.skip(from.len() as int), from, to)
    } else {
        seq![s[0]] + replaced(s.drop_first(), from, to)
    }
}

/// The view of an optional string.
pub open spec fn opt_string_view(o: Option<String>) -> Option<Seq<char>> {
    match o {
        Some(s) => Some(s@),
        None => None,
    }
}

/// The name shown for party `who`: the player's alias where it is known, else
/// `Player ` and the party's number.
pub open spec fn spec_player_name(alias: Option<Seq<char>>, who: nat) -> Seq<char> {
    match alias {
        Some(a) => a,
        None => "Player "@ + decimal(who),
    }
}

/// The placeholder that localized texts hold where the player's name goes.
pub open spec fn player_placeholder() -> Seq<char> {
    "{playername}"@
}

fn digit_str(d: u64) -> (s: &'static str)
    requires
        d < 10,
    ensures
        s@ == seq![digit_char(d as nat)],
{
    proof {
        reveal_strlit("0");
        reveal_strlit("1");
        reveal_strlit("2");
        reveal_strlit("3");
        reveal_strlit("4");
        reveal_strlit("5");
        reveal_strlit("6");
        reveal_strlit("7");
        reveal_strlit("8");
        reveal_strlit("9");
    }
    if d == 0 {
        "0"
    } else if d == 1 {
        "1"
    } else if d == 2 {
        "2"
    } else if d == 3 {
        "3"
    } else if d == 4 {
        "4"
    } else if d == 5 {
        "5"
    } else if d == 6 {
        "6"
    } else if d == 7 {
        "7"
    } else if d == 8 {
        "8"
    } else {
        "9"
    }
}

/// Appends `n` in decimal to `out`.
pub fn push_decimal(out: &mut String, n: u64)
    ensures
        final(out)@ == old(out)@ + decimal(n as nat),
    decreases n,
{
    if n >= 10 {
        push_decimal(out, n / 10);
    }
    out.append(digit_str(n % 10));
    proof {
        if n >= 10 {
            assert(old(out)@ + decimal(n as nat) =~= old(out)@ + decimal((n / 10) as nat) + seq![
                digit_char((n % 10) as nat),
            ]);
        } else {
            assert(decimal(n as nat) == seq![digit_char(n as nat)]);
        }
    }
}

/// `n` in decimal.
pub fn decimal_string(n: u64) -> (s: String)
    ensures
        s@ == decimal(n as nat),
{
    let mut s = String::new();
    push_decimal(&mut s, n);
    proof {
        assert(s@ =~= decimal(n as nat));
    }
    s
}

/// The characters of `s`.
fn chars_of(s: &str) -> (v: Vec<char>)
    ensures
        v@ == s@,
{
    let mut v: Vec<char> = Vec::new();
    let n: usize = s.unicode_len();
    let mut i: usize = 0;
    while i < n
        invariant
            n == s@.len(),
            i <= n,
            v@ == s@.take(i as int),
        decreases n - i,
    {
        v.push(s.get_char(i));
        i = i + 1;
        proof {
            assert(v@ =~= s@.take(i as int));
        }
    }
    proof {
        assert(v@ =~= s@);
    }
    v
}

/// Whether `pat` occurs in `chars` starting at `i`.
fn occurs_at(chars: &Vec<char>, i: usize, pat: &Vec<char>) -> (b: bool)
    requires
        i <= chars@.len(),
    ensures
        b == pat@.is_prefix_of(chars@.skip(i as int)),
{
    let n: usize = chars.len();
    if pat.len() > n - i {
        return false;
    }
    let mut k: usize = 0;
    while k < pat.len()
        invariant
            n == chars@.len(),
            i <= chars@.len(),
            pat@.len() <= chars@.len() - i,
            k <= pat@.len(),
            forall|j: int| 0 <= j < k ==> pat@[j] == chars@[i + j],
        decreases pat@.len() - k,
    {
        if pat[k] != chars[i + k] {
            proof {
                assert(chars@.skip(i as int).subrange(0, pat@.len() as int)[k as int] != pat@[k as int]);
            }
            return false;
        }
        k = k + 1;
    }
    proof {
        assert(pat@ =~= chars@.skip(i as int).subrange(0, pat@.len() as int));
    }
    true
}

/// Where `from` occurs at no place from `start` up to `i`, replacing in the
/// suffix from `start` copies the characters up to `i` unchanged.
proof fn lemma_replaced_run(s: Seq<char>, from: Seq<char>, to: Seq<char>, start: int, i: int)
    requires
        from.len() > 0,
        0 <= start <= i <= s.len(),
        forall|k: int| start <= k < i ==> !from.is_prefix_of(#[trigger] s.skip(k)),
    ensures
        replaced(s.skip(start), from, to) == s.subrange(start, i) + replaced(s.skip(i), from, to),
    decreases i - start,
{
    if start < i {
        lemma_replaced_run(s, from, to, start + 1, i);
        let t = s.skip(start);
        assert(!from.is_prefix_of(s.skip(start)));
        assert(t.drop_first() =~= s.skip(start + 1));
        assert(t.len() > 0);
        assert(replaced(t, from, to) == seq![t[0]] + replaced(t.drop_first(), from, to));
        assert(s.subrange(start, i) =~= seq![s[start]] + s.subrange(start + 1, i));
        assert(seq![t[0]] + (s.subrange(start + 1, i) + replaced(s.skip(i), from, to)) =~= seq![
            s[start],
        ] + s.subrange(start + 1, i) + replaced(s.skip(i), from, to));
    } else {
        assert(s.subrange(start, i) =~= Seq::<char>::empty());
        assert(Seq::<char>::empty() + replaced(s.skip(i), from, to) =~= replaced(
            s.skip(i),
            from,
            to,
        ));
    }
}

/// `s` with every occurrence of `from`, taken from left to right without
/// overlap, replaced by `to`.
pub fn replace_all(s: &str, from: &str, to: &str) -> (r: String)
    requires
        from@.len() > 0,
    ensures
        r@ == replaced(s@, from@, to@),
{
    let chars = chars_of(s);
    let pat = chars_of(from);
    let n: usize = chars.len();
    let m: usize = pat.len();
    let mut r = String::new();
    let mut start: usize = 0;
    let mut i: usize = 0;
    proof {
        assert(s@.skip(0) =~= s@);
    }
    while i < n
        invariant
            chars@ == s@,
            pat@ == from@,
            n == s@.len(),
            m == from@.len(),
            m > 0,
            start <= i <= n,
            forall|k: int| start <= k < i ==> !from@.is_prefix_of(#[trigger] s@.skip(k)),
            r@ + replaced(s@.skip(start as int), from@, to@) == replaced(s@, from@, to@),
        decreases n - i,
    {
        if occurs_at(&chars, i, &pat) {
            proof {
                lemma_replaced_run(s@, from@, to@, start as int, i as int);
                let t = s@.skip(i as int);
                assert(t.skip(m as int) =~= s@.skip(i + m));
                assert(r@ + s@.subrange(start as int, i as int) + to@ + replaced(
                    s@.skip(i + m),
                    from@,
                    to@,
                ) =~= r@ + (s@.subrange(start as int, i as int) + (to@ + replaced(
                    t.skip(m as int),
                    from@,
                    to@,
                ))));
            }
            r.append(s.substring_char(start, i));
            r.append(to);
            i = i + m;
            start = i;
        } else {
            i = i + 1;
        }
    }
    proof {
        lemma_replaced_run(s@, from@, to@, start as int, n as int);
        assert(s@.skip(n as int) =~= Seq::<char>::empty());
        assert(r@ + s@.subrange(start as int, n as int) =~= r@ + (s@.subrange(start as int, n as int)
            + replaced(s@.skip(n as int), from@, to@)));
    }
    r.append(s.substring_char(start, n));
    r
}

/// The name shown for party `who`: the player's alias where it is known, else
/// `Player ` and the party's number.
pub fn player_name(alias: &Option<String>, who: usize) -> (name: String)
    ensures
        name@ == spec_player_name(opt_string_view(*alias), who as nat),
{
    match alias {
        Some(a) => a.clone(),
        None => {
            let mut name = String::from_str("Player ");
            push_decimal(&mut name, who as u64);
            name
        },
    }
}

/// A localized text with the player's name put where the placeholder stands.
pub fn fill_player_name(template: &str, name: &str) -> (text: String)
    ensures
        text@ == replaced(template@, player_placeholder(), name@),
{
    proof {
        reveal_strlit("{playername}");
    }
    replace_all(template, "{playername}", name)
}

/// The text of a slot in the reviewing phase: the quantity, ` x ` and the item's name.
pub open spec fn spec_slot_label(quantity: u32, item_name: Seq<char>) -> Seq<char> {
    decimal(quantity as nat) + " x "@ + item_name
}

/// The text of a slot in the reviewing phase: the quantity, ` x ` and the item's name.
pub fn slot_label(quantity: u32, item_name: &str) -> (text: String)
    ensures
        text@ == spec_slot_label(quantity, item_name@),
{
    let mut text = decimal_string(quantity as u64);
    text.append(" x ");
    text.append(item_name);
    text
}

/// A text in which the pattern does not occur is left as it is.
pub proof fn lemma_replaced_without_occurrence(s: Seq<char>, from: Seq<char>, to: Seq<char>)
    requires
        from.len() > 0,
        forall|k: int| 0 <= k < s.len() ==> !from.is_prefix_of(#[trigger] s.skip(k)),
    ensures
        replaced(s, from, to) == s,
{
    lemma_replaced_run(s, from, to, 0, s.len() as int);
    assert(s.skip(0) =~= s);
    assert(s.skip(s.len() as int) =~= Seq::<char>::empty());
    assert(s.subrange(0, s.len() as int) + Seq::<char>::empty() =~= s);
}

/// A text that is just the pattern becomes the replacement.
pub proof fn lemma_replaced_whole(from: Seq<char>, to: Seq<char>)
    requires
        from.len() > 0,
    ensures
        replaced(from, from, to) == to,
{
    assert(from.is_prefix_of(from)) by {
        assert(from.subrange(0, from.len() as int) =~= from);
    }
    assert(from.skip(from.len() as int) =~= Seq::<char>::empty());
    assert(replaced(Seq::<char>::empty(), from, to) == Seq::<char>::empty());
    assert(replaced(from, from, to) == to + replaced(from.skip(from.len() as int), from, to));
    assert(to + Seq::<char>::empty() =~= to);
}

} // verus!
