//! The expression tree: three node kinds, a static precedence table, and
//! checked integer evaluation that degrades to `None` instead of wrapping
//! or aborting.

use vstd::prelude::*;

verus! {

/// A unary operator glyph.
pub enum OperadorUnario {
    /// Arithmetic negation, rendered `-`.
    Negacao,
    /// An identity marker: a no-op at evaluation time, kept purely for its
    /// display glyph.
    Pinguinacao,
}

/// A binary operator glyph.
pub enum OperadorBinario {
    Adicao,
    Multiplicacao,
    Divisao,
    RestoDivisao,
}

/// An arithmetic expression: a finite tree in which every node exclusively
/// owns its children.
pub enum Expressao {
    /// A signed 64-bit literal.
    Valor(i64),
    /// A binary operator applied to two owned sub-expressions.
    OperadorBinario { p: Box<Expressao>, op: OperadorBinario, s: Box<Expressao> },
    /// A unary operator applied to one owned sub-expression.
    OperadorUnario(OperadorUnario, Box<Expressao>),
}

/// Precedence of a unary operator, used only to decide parenthesization.
pub open spec fn precedencia_unaria(op: OperadorUnario) -> u8 {
    3
}

/// Precedence of a binary operator, used only to decide parenthesization.
pub open spec fn precedencia_binaria(op: OperadorBinario) -> u8 {
    match op {
        OperadorBinario::Adicao => 1,
        OperadorBinario::Multiplicacao => 2,
        OperadorBinario::Divisao => 2,
        OperadorBinario::RestoDivisao => 3,
    }
}

/// Precedence of a node: literals are atomic (never parenthesized), every
/// other node takes its operator's precedence.
pub open spec fn precedencia_no(e: Expressao) -> u8 {
    match e {
        Expressao::Valor(_) => 10,
        Expressao::OperadorBinario { op, .. } => precedencia_binaria(op),
        Expressao::OperadorUnario(op, _) => precedencia_unaria(op),
    }
}

/// The checked application of a binary operator: `None` on overflow, and on
/// a zero right operand for division and remainder.
pub open spec fn aplicacao_binaria(op: OperadorBinario, a: i64, b: i64) -> Option<i64> {
    match op {
        OperadorBinario::Adicao => a.checked_add(b),
        OperadorBinario::Multiplicacao => a.checked_mul(b),
        OperadorBinario::Divisao => a.checked_div(b),
        OperadorBinario::RestoDivisao => a.checked_rem(b),
    }
}

/// The value of an expression, or `None` as soon as any arithmetic step
/// overflows or divides by zero. Negation of the minimum representable
/// value also yields `None`, in line with the checked arithmetic elsewhere.
pub open spec fn avaliacao(e: Expressao) -> Option<i64>
    decreases e,
{
    match e {
        Expressao::Valor(v) => Some(v),
        Expressao::OperadorBinario { p, op, s } => match (avaliacao(*p), avaliacao(*s)) {
            (Some(a), Some(b)) => aplicacao_binaria(op, a, b),
            _ => None,
        },
        Expressao::OperadorUnario(op, x) => match op {
            OperadorUnario::Negacao => match avaliacao(*x) {
                Some(a) => if a == i64::MIN {
                    None
                } else {
                    Some((-a) as i64)
                },
                None => None,
            },
            OperadorUnario::Pinguinacao => avaliacao(*x),
        },
    }
}

impl OperadorUnario {
    /// Precedence of this unary operator.
    pub fn precedencia(&self) -> (r: u8)
        ensures
            r == precedencia_unaria(*self),
    {
        3
    }
}

impl OperadorBinario {
    /// Precedence of this binary operator.
    pub fn precedencia(&self) -> (r: u8)
        ensures
            r == precedencia_binaria(*self),
    {
        if let OperadorBinario::Adicao = self {
            1
        } else if let OperadorBinario::RestoDivisao = self {
            3
        } else {
            2
        }
    }
}

impl Expressao {
    /// Precedence of this node.
    pub fn precedencia(&self) -> (r: u8)
        ensures
            r == precedencia_no(*self),
    {
        match self {
            Expressao::OperadorBinario { op, .. } => op.precedencia(),
            Expressao::Valor(_) => 10,
            Expressao::OperadorUnario(op, _) => op.precedencia(),
        }
    }

    /// Builds a literal node.
    pub fn new_num(i: i64) -> (r: Self)
        ensures
            r == Expressao::Valor(i),
    {
        Expressao::Valor(i)
    }

    /// Builds a binary node from two already-built sub-expressions.
    pub fn new_bin_op(op: OperadorBinario, primeiro: Expressao, segundo: Expressao) -> (r: Self)
        ensures
            (r matches Expressao::OperadorBinario { p, op: o, s }
                && *p == primeiro && o == op && *s == segundo),
    {
        Expressao::OperadorBinario { p: Box::new(primeiro), op, s: Box::new(segundo) }
    }

    /// Builds a unary node from an already-built sub-expression.
    pub fn new_un_op(op: OperadorUnario, primeiro: Expressao) -> (r: Self)
        ensures
            (r matches Expressao::OperadorUnario(o, x) && o == op && *x == primeiro),
    {
        Expressao::OperadorUnario(op, Box::new(primeiro))
    }

    /// Evaluates the expression: its value, or `None` as soon as any
    /// arithmetic step overflows or divides by zero.
    pub fn avaliar(&self) -> (r: Option<i64>)
        ensures
            r == avaliacao(*self),
        decreases *self,
    {
        match self {
            Expressao::Valor(v) => Some(*v),
            Expressao::OperadorBinario { p, op, s } => match (p.avaliar(), s.avaliar()) {
                (Some(a), Some(b)) => match op {
                    OperadorBinario::Adicao => a.checked_add(b),
                    OperadorBinario::Multiplicacao => a.checked_mul(b),
                    OperadorBinario::Divisao => a.checked_div(b),
                    OperadorBinario::RestoDivisao => a.checked_rem(b),
                },
                _ => None,
            },
            Expressao::OperadorUnario(op, x) => {
                let v = x.avaliar();
                match op {
                    OperadorUnario::Negacao => match v {
                        Some(a) => if a == i64::MIN {
                            None
                        } else {
                            Some(-a)
                        },
                        None => None,
                    },
                    OperadorUnario::Pinguinacao => v,
                }
            }
        }
    }
}

/// The decimal digit with value `d` (meaningful for `d < 10`).
pub open spec fn digito_char(d: nat) -> char {
    if d == 0 { '0' }
    else if d == 1 { '1' }
    else if d == 2 { '2' }
    else if d == 3 { '3' }
    else if d == 4 { '4' }
    else if d == 5 { '5' }
    else if d == 6 { '6' }
    else if d == 7 { '7' }
    else if d == 8 { '8' }
    else { '9' }
}

/// The decimal digits of `n`, most significant first, with no sign and no
/// leading zeros (except for `n == 0` itself).
pub open spec fn digitos_decimais(n: nat) -> Seq<char>
    decreases n,
{
    if n < 10 {
        seq![digito_char(n)]
    } else {
        digitos_decimais(n / 10) + seq![digito_char(n % 10)]
    }
}

/// The decimal rendering of a literal: a `-` sign for negative values,
/// then the digits of the magnitude.
pub open spec fn texto_valor(v: i64) -> Seq<char> {
    if v < 0 {
        seq!['-'] + digitos_decimais((-v) as nat)
    } else {
        digitos_decimais(v as nat)
    }
}

/// The display glyph of a unary operator.
pub open spec fn glifo_unario(op: OperadorUnario) -> Seq<char> {
    match op {
        OperadorUnario::Negacao => seq!['-'],
        OperadorUnario::Pinguinacao => seq!['🐧'],
    }
}

/// The display glyph of a binary operator.
pub open spec fn glifo_binario(op: OperadorBinario) -> Seq<char> {
    match op {
        OperadorBinario::Adicao => seq!['+'],
        OperadorBinario::Multiplicacao => seq!['*'],
        OperadorBinario::Divisao => seq!['/'],
        OperadorBinario::RestoDivisao => seq!['%'],
    }
}

/// A child's rendering as it appears under an operator of precedence
/// `prec`: parenthesized exactly when the operator binds strictly tighter
/// than the child, so only strictly-lower-precedence subtrees are wrapped.
pub open spec fn filho_renderizado(prec: u8, filho: Expressao) -> Seq<char>
    decreases filho, 1nat,
{
    if prec > precedencia_no(filho) {
        seq!['('] + renderizacao(filho) + seq![')']
    } else {
        renderizacao(filho)
    }
}

/// The one-line rendering of an expression: a literal as decimal digits, a
/// unary node as its glyph immediately followed by its operand, a binary
/// node as `<left> <operator> <right>` with single-space padding, each
/// child parenthesized per `filho_renderizado`.
pub open spec fn renderizacao(e: Expressao) -> Seq<char>
    decreases e, 0nat,
{
    match e {
        Expressao::Valor(v) => texto_valor(v),
        Expressao::OperadorUnario(op, x) => glifo_unario(op)
            + filho_renderizado(precedencia_unaria(op), *x),
        Expressao::OperadorBinario { p, op, s } => filho_renderizado(precedencia_binaria(op), *p)
            + seq![' '] + glifo_binario(op) + seq![' ']
            + filho_renderizado(precedencia_binaria(op), *s),
    }
}

/// The one-character text of the decimal digit with value `d`.
fn digito_str(d: u64) -> (r: &'static str)
    requires
        d < 10,
    ensures
        r@ == seq![digito_char(d as nat)],
{
    proof {
        reveal_strlit("0");
        reveal_strlit("1");
        reveal_strlit("2");
        reveal_strlit("3");
        reveal_strlit("4");
        reveal_strlit("5");
        reveal_strlit("6");
        reveal_strlit("7");
        reveal_strlit("8");
        reveal_strlit("9");
    }
    if d == 0 { "0" }
    else if d == 1 { "1" }
    else if d == 2 { "2" }
    else if d == 3 { "3" }
    else if d == 4 { "4" }
    else if d == 5 { "5" }
    else if d == 6 { "6" }
    else if d == 7 { "7" }
    else if d == 8 { "8" }
    else { "9" }
}

/// The decimal digits of `n`, most significant first.
fn digitos_u64(n: u64) -> (r: String)
    ensures
        r@ == digitos_decimais(n as nat),
    decreases n,
{
    if n < 10 {
        let mut r = String::new();
        r.append(digito_str(n));
        proof {
            assert(r@ =~= digitos_decimais(n as nat));
        }
        r
    } else {
        let mut r = digitos_u64(n / 10);
        r.append(digito_str(n % 10));
        proof {
            assert(r@ =~= digitos_decimais(n as nat));
        }
        r
    }
}

/// The decimal text of a literal's value, sign included.
fn texto_do_valor(v: i64) -> (r: String)
    ensures
        r@ == texto_valor(v),
{
    if v >= 0 {
        digitos_u64(v as u64)
    } else {
        let m: u64 = if v == i64::MIN {
            9223372036854775808u64
        } else {
            (-v) as u64
        };
        proof {
            reveal_strlit("-");
        }
        let mut r = String::new();
        r.append("-");
        let digs = digitos_u64(m);
        r.append(digs.as_str());
        proof {
            assert(r@ =~= texto_valor(v));
        }
        r
    }
}

impl OperadorUnario {
    /// The display glyph of this unary operator.
    pub fn glifo(&self) -> (r: &'static str)
        ensures
            r@ == glifo_unario(*self),
    {
        proof {
            reveal_strlit("-");
            reveal_strlit("🐧");
        }
        match self {
            OperadorUnario::Negacao => "-",
            OperadorUnario::Pinguinacao => "🐧",
        }
    }
}

impl OperadorBinario {
    /// The display glyph of this binary operator.
    pub fn glifo(&self) -> (r: &'static str)
        ensures
            r@ == glifo_binario(*self),
    {
        proof {
            reveal_strlit("+");
            reveal_strlit("*");
            reveal_strlit("/");
            reveal_strlit("%");
        }
        match self {
            OperadorBinario::Adicao => "+",
            OperadorBinario::Multiplicacao => "*",
            OperadorBinario::Divisao => "/",
            OperadorBinario::RestoDivisao => "%",
        }
    }
}

impl Expressao {
    /// This expression's rendering, parenthesized if it binds strictly
    /// looser than the operator of precedence `prec` above it.
    fn renderizar_filho(&self, prec: u8) -> (r: String)
        ensures
            r@ == filho_renderizado(prec, *self),
        decreases *self, 1nat,
    {
        let texto = self.renderizar();
        if prec > self.precedencia() {
            proof {
                reveal_strlit("(");
                reveal_strlit(")");
            }
            let mut r = String::new();
            r.append("(");
            r.append(texto.as_str());
            r.append(")");
            proof {
                assert(r@ =~= filho_renderizado(prec, *self));
            }
            r
        } else {
            texto
        }
    }

    /// Renders the expression on one line, with single-space padding
    /// around binary operators and parentheses around every child that
    /// binds strictly looser than its parent operator.
    pub fn renderizar(&self) -> (r: String)
        ensures
            r@ == renderizacao(*self),
        decreases *self, 0nat,
    {
        match self {
            Expressao::Valor(v) => texto_do_valor(*v),
            Expressao::OperadorUnario(op, x) => {
                let mut r = String::new();
                r.append(op.glifo());
                let filho = x.renderizar_filho(op.precedencia());
                r.append(filho.as_str());
                proof {
                    assert(r@ =~= renderizacao(*self));
                }
                r
            }
            Expressao::OperadorBinario { p, op, s } => {
                proof {
                    reveal_strlit(" ");
                }
                let prec = op.precedencia();
                let mut r = p.renderizar_filho(prec);
                r.append(" ");
                r.append(op.glifo());
                r.append(" ");
                let lado = s.renderizar_filho(prec);
                r.append(lado.as_str());
                proof {
                    assert(r@ =~= renderizacao(*self));
                }
                r
            }
        }
    }
}

/// The connector printed before a node's label in the tree diagram: empty
/// at the root, an elbow when the node is the last sibling, a tee
/// otherwise.
pub open spec fn conector(prefixo: Seq<char>, ultimo: bool) -> Seq<char> {
    if prefixo.len() == 0 {
        Seq::<char>::empty()
    } else if ultimo {
        seq!['└', '─', '─', ' ']
    } else {
        seq!['├', '─', '─', ' ']
    }
}

/// The label of a node in the tree diagram: its value or its operator
/// glyph.
pub open spec fn rotulo(e: Expressao) -> Seq<char> {
    match e {
        Expressao::Valor(v) => texto_valor(v),
        Expressao::OperadorUnario(op, _) => glifo_unario(op),
        Expressao::OperadorBinario { op, .. } => glifo_binario(op),
    }
}

/// The indentation a node hands down to its children: its own prefix plus
/// three spaces when it was the last sibling, else plus a vertical bar and
/// two spaces.
pub open spec fn extensao(prefixo: Seq<char>, ultimo: bool) -> Seq<char> {
    if ultimo {
        prefixo + seq![' ', ' ', ' ']
    } else {
        prefixo + seq!['|', ' ', ' ']
    }
}

/// The lines of the tree diagram rooted at `e`: the node's own line
/// (prefix, connector, label, newline), then its children depth-first.
/// A binary node lists its left child as not-last and its right child as
/// last; a unary node lists its operand as last, the identity marker
/// adding one extra space to compensate for its wider glyph.
pub open spec fn diagrama_no(e: Expressao, prefixo: Seq<char>, ultimo: bool) -> Seq<char>
    decreases e,
{
    let linha = prefixo + conector(prefixo, ultimo) + rotulo(e) + seq!['\n'];
    linha + match e {
        Expressao::Valor(_) => Seq::<char>::empty(),
        Expressao::OperadorUnario(op, x) => match op {
            OperadorUnario::Pinguinacao => diagrama_no(*x, extensao(prefixo, ultimo) + seq![' '], true),
            OperadorUnario::Negacao => diagrama_no(*x, extensao(prefixo, ultimo), true),
        },
        Expressao::OperadorBinario { p, s, .. } => diagrama_no(*p, extensao(prefixo, ultimo), false)
            + diagrama_no(*s, extensao(prefixo, ultimo), true),
    }
}

/// The whole tree diagram: a fixed 3-space left margin before the first
/// line, then the root's lines with an empty prefix at last-sibling
/// status.
pub open spec fn diagrama(e: Expressao) -> Seq<char> {
    seq![' ', ' ', ' '] + diagrama_no(e, Seq::<char>::empty(), true)
}

impl Expressao {
    /// The lines of the tree diagram rooted at this node, under the given
    /// accumulated indentation and sibling status.
    fn texto_no(&self, prefixo: &String, ultimo: bool) -> (r: String)
        ensures
            r@ == diagrama_no(*self, prefixo@, ultimo),
        decreases *self,
    {
        proof {
            reveal_strlit("└── ");
            reveal_strlit("├── ");
            reveal_strlit("\n");
            reveal_strlit("   ");
            reveal_strlit("|  ");
            reveal_strlit(" ");
        }
        let mut r = String::new();
        r.append(prefixo.as_str());
        if !prefixo.as_str().is_empty() {
            if ultimo {
                r.append("└── ");
            } else {
                r.append("├── ");
            }
        }
        match self {
            Expressao::Valor(v) => {
                let texto = texto_do_valor(*v);
                r.append(texto.as_str());
            }
            Expressao::OperadorUnario(op, _) => r.append(op.glifo()),
            Expressao::OperadorBinario { op, .. } => r.append(op.glifo()),
        }
        r.append("\n");
        let mut ext = prefixo.clone();
        if ultimo {
            ext.append("   ");
        } else {
            ext.append("|  ");
        }
        proof {
            assert(ext@ =~= extensao(prefixo@, ultimo));
        }
        match self {
            Expressao::Valor(_) => {}
            Expressao::OperadorUnario(op, x) => {
                match op {
                    OperadorUnario::Pinguinacao => {
                        ext.append(" ");
                        proof {
                            assert(ext@ =~= extensao(prefixo@, ultimo) + seq![' ']);
                        }
                        let filho = x.texto_no(&ext, true);
                        r.append(filho.as_str());
                    }
                    OperadorUnario::Negacao => {
                        let filho = x.texto_no(&ext, true);
                        r.append(filho.as_str());
                    }
                }
            }
            Expressao::OperadorBinario { p, s, .. } => {
                let esquerda = p.texto_no(&ext, false);
                r.append(esquerda.as_str());
                let direita = s.texto_no(&ext, true);
                r.append(direita.as_str());
            }
        }
        proof {
            assert(r@ =~= diagrama_no(*self, prefixo@, ultimo));
        }
        r
    }

    /// The indented, multi-line tree diagram of the expression, printed
    /// top-down and depth-first.
    pub fn texto_arvore(&self) -> (r: String)
        ensures
            r@ == diagrama(*self),
    {
        proof {
            reveal_strlit("   ");
        }
        let mut r = String::new();
        r.append("   ");
        let vazio = String::new();
        let corpo = self.texto_no(&vazio, true);
        r.append(corpo.as_str());
        proof {
            assert(r@ =~= diagrama(*self));
        }
        r
    }
}

/// A binary node evaluates to `None` whenever either side does, and
/// otherwise to the checked application of its operator.
pub proof fn lei_avaliacao_binaria(e: Expressao)
    ensures
        (e matches Expressao::OperadorBinario { p, op, s } ==> avaliacao(e) == (
            match (avaliacao(*p), avaliacao(*s)) {
                (Some(a), Some(b)) => aplicacao_binaria(op, a, b),
                _ => None::<i64>,
            })),
{
}

/// The identity marker is a pass-through: the node evaluates exactly as its
/// operand does.
pub proof fn lei_avaliacao_pinguinacao(e: Expressao)
    ensures
        (e matches Expressao::OperadorUnario(OperadorUnario::Pinguinacao, x)
            ==> avaliacao(e) == avaliacao(*x)),
{
}

} // verus!
