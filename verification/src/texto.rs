//! Decimal text: writing and reading unsigned numbers as sequences of
//! ASCII digits.

use vstd::prelude::*;
use vstd::string::*;

verus! {

/// The character of one decimal digit.
pub open spec fn digito_spec(d: nat) -> char
    recommends
        d < 10,
{
    if d == 0 {
        '0'
    } else if d == 1 {
        '1'
    } else if d == 2 {
        '2'
    } else if d == 3 {
        '3'
    } else if d == 4 {
        '4'
    } else if d == 5 {
        '5'
    } else if d == 6 {
        '6'
    } else if d == 7 {
        '7'
    } else if d == 8 {
        '8'
    } else {
        '9'
    }
}

/// Whether `c` is one of `'0'..='9'`.
pub open spec fn e_digito(c: char) -> bool {
    '0' <= c && c <= '9'
}

/// The value of a decimal digit character.
pub open spec fn valor_digito_spec(c: char) -> nat
    recommends
        e_digito(c),
{
    (c as u32 - '0' as u32) as nat
}

/// The shortest decimal writing of `n`.
pub open spec fn decimal_spec(n: nat) -> Seq<char>
    decreases n,
{
    if n < 10 {
        seq![digito_spec(n)]
    } else {
        decimal_spec(n / 10).push(digito_spec(n % 10))
    }
}

/// `n` copies of `'0'`.
pub open spec fn zeros_spec(n: nat) -> Seq<char> {
    Seq::new(n, |i: int| '0')
}

/// The decimal writing of `n`, with zeros in front until it has at least
/// `largura` digits.
pub open spec fn decimal_preenchido_spec(n: nat, largura: nat) -> Seq<char> {
    let d = decimal_spec(n);
    if d.len() >= largura {
        d
    } else {
        zeros_spec((largura - d.len()) as nat) + d
    }
}

fn digito_str(d: u128) -> (r: &'static str)
    requires
        d < 10,
    ensures
        r@ == seq![digito_spec(d as nat)],
{
    proof {
        reveal_strlit("0");
        reveal_strlit("1");
        reveal_strlit("2");
        reveal_strlit("3");
        reveal_strlit("4");
        reveal_strlit("5");
        reveal_strlit("6");
        reveal_strlit("7");
        reveal_strlit("8");
        reveal_strlit("9");
    }
    let r = if d == 0 {
        "0"
    } else if d == 1 {
        "1"
    } else if d == 2 {
        "2"
    } else if d == 3 {
        "3"
    } else if d == 4 {
        "4"
    } else if d == 5 {
        "5"
    } else if d == 6 {
        "6"
    } else if d == 7 {
        "7"
    } else if d == 8 {
        "8"
    } else {
        "9"
    };
    assert(r@ =~= seq![digito_spec(d as nat)]);
    r
}

/// Writes `n` in decimal, without leading zeros.
pub fn decimal(n: u128) -> (r: String)
    ensures
        r@ == decimal_spec(n as nat),
    decreases n,
{
    if n < 10 {
        String::from_str(digito_str(n))
    } else {
        let mut s = decimal(n / 10);
        s.append(digito_str(n % 10));
        assert(s@ =~= decimal_spec(n as nat));
        s
    }
}

/// Writes `n` in decimal with zeros in front, so that the text has at least
/// `largura` digits.
pub fn decimal_preenchido(n: u128, largura: usize) -> (r: String)
    ensures
        r@ == decimal_preenchido_spec(n as nat, largura as nat),
{
    let d = decimal(n);
    let len = d.as_str().unicode_len();
    let mut r = String::new();
    if len >= largura {
        return d;
    }
    let mut i: usize = len;
    while i < largura
        invariant
            len <= i <= largura,
            r@ == zeros_spec((i - len) as nat),
        decreases largura - i,
    {
        proof {
            reveal_strlit("0");
        }
        r.append("0");
        i += 1;
        assert(r@ =~= zeros_spec((i - len) as nat));
    }
    r.append(d.as_str());
    r
}

/// Whether every character of `s` is a decimal digit.
pub open spec fn so_digitos(s: Seq<char>) -> bool {
    forall|i: int| 0 <= i < s.len() ==> e_digito(#[trigger] s[i])
}

/// The number that a sequence of decimal digits writes; 0 for the empty
/// sequence.
pub open spec fn valor_spec(s: Seq<char>) -> nat
    decreases s.len(),
{
    if s.len() == 0 {
        0
    } else {
        valor_spec(s.drop_last()) * 10 + valor_digito_spec(s.last())
    }
}

/// The unsigned number that `s` writes: an optional `+`, then one or more
/// decimal digits whose value fits a `usize`. Anything else writes no number.
pub open spec fn numero_spec(s: Seq<char>) -> Option<nat> {
    let corpo = if s.len() > 0 && s[0] == '+' {
        s.skip(1)
    } else {
        s
    };
    if corpo.len() == 0 || !so_digitos(corpo) || valor_spec(corpo) > usize::MAX {
        None
    } else {
        Some(valor_spec(corpo))
    }
}

/// How many `'0'` characters stand at the start of `s`.
pub open spec fn zeros_iniciais(s: Seq<char>) -> nat
    decreases s.len(),
{
    if s.len() > 0 && s[0] == '0' {
        1 + zeros_iniciais(s.skip(1))
    } else {
        0
    }
}

/// A prefix of a digit sequence writes no more than the whole sequence.
pub proof fn lema_valor_prefixo(s: Seq<char>, k: int)
    requires
        0 <= k <= s.len(),
    ensures
        valor_spec(s.take(k)) <= valor_spec(s),
    decreases s.len(),
{
    if k == s.len() {
        assert(s.take(k) =~= s);
    } else {
        lema_valor_prefixo(s.drop_last(), k);
        assert(s.drop_last().take(k) =~= s.take(k));
    }
}

/// The count of leading zeros is the index of the first character that is
/// not `'0'`.
pub proof fn lema_zeros_iniciais(s: Seq<char>, j: int)
    requires
        0 <= j <= s.len(),
        forall|k: int| 0 <= k < j ==> s[k] == '0',
        j == s.len() || s[j] != '0',
    ensures
        zeros_iniciais(s) == j,
    decreases j,
{
    if j > 0 {
        let r = s.skip(1);
        assert forall|k: int| 0 <= k < j - 1 implies r[k] == '0' by {
            assert(r[k] == s[k + 1]);
        }
        lema_zeros_iniciais(r, j - 1);
    }
}

/// Reads the unsigned number written by the characters of `s` from index
/// `de` on.
pub fn analisar_numero(s: &str, de: usize) -> (r: Option<usize>)
    requires
        de <= s@.len(),
    ensures
        match r {
            Some(v) => numero_spec(s@.skip(de as int)) == Some(v as nat),
            None => numero_spec(s@.skip(de as int)) is None,
        },
{
    let len = s.unicode_len();
    let ghost texto = s@.skip(de as int);
    let mut inicio: usize = de;
    if de < len && s.get_char(de) == '+' {
        inicio = de + 1;
    }
    let ghost corpo = s@.skip(inicio as int);
    proof {
        if inicio == de {
            assert(corpo == texto);
            assert(!(texto.len() > 0 && texto[0] == '+'));
        } else {
            assert(texto[0] == '+');
            assert(corpo =~= texto.skip(1));
        }
    }
    if inicio == len {
        return None;
    }
    let mut acc: usize = 0;
    let mut i: usize = inicio;
    while i < len
        invariant
            inicio <= i <= len,
            len == s@.len(),
            corpo == s@.skip(inicio as int),
            texto == s@.skip(de as int),
            corpo == if texto.len() > 0 && texto[0] == '+' {
                texto.skip(1)
            } else {
                texto
            },
            so_digitos(corpo.take(i - inicio)),
            acc as nat == valor_spec(corpo.take(i - inicio)),
        decreases len - i,
    {
        let c = s.get_char(i);
        assert(c == corpo[i - inicio]);
        if !('0' <= c && c <= '9') {
            return None;
        }
        let d: usize = (c as u32 - '0' as u32) as usize;
        let ghost prox = corpo.take(i - inicio + 1);
        proof {
            assert(prox.drop_last() =~= corpo.take(i - inicio));
            assert(prox.last() == c);
            assert forall|k: int| 0 <= k < prox.len() implies e_digito(#[trigger] prox[k]) by {
                if k < i - inicio {
                    assert(prox[k] == corpo.take(i - inicio)[k]);
                }
            }
        }
        if acc > (usize::MAX - d) / 10 {
            proof {
                lema_valor_prefixo(corpo, i - inicio + 1);
            }
            return None;
        }
        acc = acc * 10 + d;
        i += 1;
    }
    proof {
        assert(corpo.take(i - inicio) =~= corpo);
    }
    Some(acc)
}

/// The decimal writing of a number is made of digits, at least one, and
/// writes that number.
pub proof fn lema_decimal(n: nat)
    ensures
        decimal_spec(n).len() >= 1,
        so_digitos(decimal_spec(n)),
        valor_spec(decimal_spec(n)) == n,
        n >= 1 ==> decimal_spec(n)[0] != '0',
    decreases n,
{
    let d = decimal_spec(n);
    if n < 10 {
        assert(d.len() == 1);
        assert(d[0] == digito_spec(n));
        assert(d.drop_last() =~= Seq::<char>::empty());
        assert(valor_spec(d.drop_last()) == 0);
        assert(valor_digito_spec(d.last()) == n);
    } else {
        lema_decimal(n / 10);
        let a = decimal_spec(n / 10);
        assert(d == a.push(digito_spec(n % 10)));
        assert(d.drop_last() =~= a);
        assert(d.last() == digito_spec(n % 10));
        assert(valor_digito_spec(d.last()) == n % 10);
        assert forall|i: int| 0 <= i < d.len() implies e_digito(#[trigger] d[i]) by {
            if i < a.len() {
                assert(d[i] == a[i]);
            }
        }
        assert(d[0] == a[0]);
    }
}

/// Zeros in front change nothing: behind them stands the shortest writing.
pub proof fn lema_preenchido(n: nat, largura: nat)
    requires
        n >= 1,
    ensures
        decimal_preenchido_spec(n, largura).skip(
            zeros_iniciais(decimal_preenchido_spec(n, largura)) as int,
        ) == decimal_spec(n),
{
    let d = decimal_spec(n);
    let p = decimal_preenchido_spec(n, largura);
    lema_decimal(n);
    if d.len() >= largura {
        lema_zeros_iniciais(p, 0);
        assert(p.skip(0) =~= d);
    } else {
        let z = (largura - d.len()) as int;
        assert(p[z] == d[0]);
        lema_zeros_iniciais(p, z);
        assert(p.skip(z) =~= d);
    }
}

} // verus!
