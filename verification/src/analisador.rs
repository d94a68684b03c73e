//! The tokenizer: scans a text buffer into positioned tokens.

use vstd::prelude::*;

verus! {

/// A scalar the tokenizer skips: a plain space or the reserved
/// whitespace-equivalent glyph.
pub open spec fn eh_branco(c: char) -> bool {
    c == ' ' || c == '🦀'
}

/// An ASCII decimal digit.
pub open spec fn eh_digito(c: char) -> bool {
    '0' <= c && c <= '9'
}

/// A scalar of the fixed operator alphabet.
pub open spec fn eh_operador(c: char) -> bool {
    c == '🐧' || c == '+' || c == '-' || c == '/' || c == '*'
}

/// The length of the leading run of skippable whitespace in `s`.
pub open spec fn brancos_iniciais(s: Seq<char>) -> nat
    decreases s.len(),
{
    if s.len() > 0 && eh_branco(s[0]) {
        (1 + brancos_iniciais(s.skip(1))) as nat
    } else {
        0
    }
}

/// The length of the leading run of ASCII digits in `s`.
pub open spec fn digitos_iniciais(s: Seq<char>) -> nat
    decreases s.len(),
{
    if s.len() > 0 && eh_digito(s[0]) {
        (1 + digitos_iniciais(s.skip(1))) as nat
    } else {
        0
    }
}

/// `brancos_iniciais` is exactly the cut point a left-to-right scan finds:
/// `k` scalars of whitespace followed by the end or a non-whitespace
/// scalar.
proof fn lema_brancos_iniciais(s: Seq<char>, k: nat)
    requires
        k <= s.len(),
        forall|j: int| 0 <= j < k ==> eh_branco(s[j]),
        k == s.len() || !eh_branco(s[k as int]),
    ensures
        brancos_iniciais(s) == k,
    decreases k,
{
    if k > 0 {
        lema_brancos_iniciais(s.skip(1), (k - 1) as nat);
    }
}

/// `digitos_iniciais` is exactly the cut point a left-to-right scan finds.
proof fn lema_digitos_iniciais(s: Seq<char>, k: nat)
    requires
        k <= s.len(),
        forall|j: int| 0 <= j < k ==> eh_digito(s[j]),
        k == s.len() || !eh_digito(s[k as int]),
    ensures
        digitos_iniciais(s) == k,
    decreases k,
{
    if k > 0 {
        lema_digitos_iniciais(s.skip(1), (k - 1) as nat);
    }
}

/// The tokenizer: holds the still-unscanned text and a running count of
/// Unicode scalar values already consumed.
pub struct Analisador<'a> {
    pos: usize,
    prox: &'a str,
}

impl<'a> Analisador<'a> {
    /// Number of Unicode scalar values consumed so far.
    pub closed spec fn posicao(&self) -> nat {
        self.pos as nat
    }

    /// The still-unscanned text, as a sequence of Unicode scalar values.
    pub closed spec fn restante(&self) -> Seq<char> {
        self.prox@
    }

    /// Positions stay representable: the count already consumed plus
    /// everything still unscanned fits in `usize`.
    pub closed spec fn bem_formado(&self) -> bool {
        self.pos + self.prox@.len() <= usize::MAX
    }

    /// Builds a tokenizer over the whole of `entrada`, with nothing
    /// consumed yet.
    pub fn novo(entrada: &'a str) -> (r: Self)
        ensures
            r.posicao() == 0,
            r.restante() == entrada@,
            r.bem_formado(),
    {
        // Counting the scalars once shows that the whole input fits in
        // `usize`, which bounds every position handed out later.
        let _tamanho: usize = entrada.unicode_len();
        Self { pos: 0, prox: entrada }
    }

    /// Scans past any whitespace and returns the next token as
    /// `Ok((posicao, texto))`, where `posicao` is the 1-based count of the
    /// token's first scalar from the start of the original input. A
    /// maximal run of ASCII digits is one token, returned verbatim; a
    /// scalar of the operator alphabet is a token by itself. A buffer with
    /// nothing but whitespace left yields `Err(None)`; any other scalar
    /// yields `Err(Some(p))` with `p` its 1-based position. Both `Err`
    /// outcomes leave the tokenizer unchanged.
    pub fn proximo(&mut self) -> (r: Result<(usize, &'a str), Option<usize>>)
        requires
            old(self).bem_formado(),
        ensures
            final(self).bem_formado(),
            ({
                let d = old(self).restante();
                let w = brancos_iniciais(d) as int;
                let resto = d.skip(w);
                if w == d.len() {
                    &&& (r matches Err(e) && e matches None::<usize>)
                    &&& *final(self) == *old(self)
                } else if eh_digito(d[w]) {
                    let n = digitos_iniciais(resto) as int;
                    &&& (r matches Ok((p, t))
                        && p == old(self).posicao() + w + 1
                        && t@ == resto.take(n))
                    &&& final(self).posicao() == old(self).posicao() + w + n
                    &&& final(self).restante() == resto.skip(n)
                } else if eh_operador(d[w]) {
                    &&& (r matches Ok((p, t))
                        && p == old(self).posicao() + w + 1
                        && t@ == seq![d[w]])
                    &&& final(self).posicao() == old(self).posicao() + w + 1
                    &&& final(self).restante() == resto.skip(1)
                } else {
                    &&& (r matches Err(e) && e matches Some(p)
                        && p == old(self).posicao() + w + 1)
                    &&& *final(self) == *old(self)
                }
            }),
    {
        let texto = self.prox;
        let tamanho = texto.unicode_len();
        let mut i: usize = 0;
        while i < tamanho && eh_branco_exec(texto.get_char(i))
            invariant
                i <= tamanho,
                tamanho == texto@.len(),
                forall|j: int| 0 <= j < i ==> eh_branco(texto@[j]),
            decreases tamanho - i,
        {
            i = i + 1;
        }
        proof {
            lema_brancos_iniciais(texto@, i as nat);
        }
        if i == tamanho {
            return Err(None);
        }
        let ghost resto = texto@.skip(i as int);
        let c = texto.get_char(i);
        if eh_digito_exec(c) {
            let mut j: usize = i + 1;
            while j < tamanho && eh_digito_exec(texto.get_char(j))
                invariant
                    i < j <= tamanho,
                    tamanho == texto@.len(),
                    forall|k: int| i <= k < j ==> eh_digito(texto@[k]),
                decreases tamanho - j,
            {
                j = j + 1;
            }
            proof {
                lema_digitos_iniciais(resto, (j - i) as nat);
                assert(forall|k: int| 0 <= k < j - i ==> resto[k] == texto@[k + i]);
            }
            let conteudo = texto.substring_char(i, j);
            let restante = texto.substring_char(j, tamanho);
            let posicao = self.pos + i + 1;
            self.pos = self.pos + j;
            self.prox = restante;
            proof {
                assert(conteudo@ =~= resto.take(j - i));
                assert(restante@ =~= resto.skip(j - i));
            }
            Ok((posicao, conteudo))
        } else if eh_operador_exec(c) {
            let conteudo = texto.substring_char(i, i + 1);
            let restante = texto.substring_char(i + 1, tamanho);
            let posicao = self.pos + i + 1;
            self.pos = self.pos + i + 1;
            self.prox = restante;
            proof {
                assert(conteudo@ =~= seq![texto@[i as int]]);
                assert(restante@ =~= resto.skip(1));
            }
            Ok((posicao, conteudo))
        } else {
            Err(Some(self.pos + i + 1))
        }
    }
}

/// Whether the scalar is skippable whitespace.
fn eh_branco_exec(c: char) -> (r: bool)
    ensures
        r == eh_branco(c),
{
    c == ' ' || c == '🦀'
}

/// Whether the scalar is an ASCII decimal digit.
fn eh_digito_exec(c: char) -> (r: bool)
    ensures
        r == eh_digito(c),
{
    '0' <= c && c <= '9'
}

/// Whether the scalar belongs to the fixed operator alphabet.
fn eh_operador_exec(c: char) -> (r: bool)
    ensures
        r == eh_operador(c),
{
    c == '🐧' || c == '+' || c == '-' || c == '/' || c == '*'
}

} // verus!
