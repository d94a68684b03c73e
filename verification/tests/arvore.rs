use analisador_lexico::arvore_sintatica::{Expressao, OperadorBinario, OperadorUnario};

#[test]
fn soma_exp() {
    let a = Expressao::new_num(10);
    let b = Expressao::new_num(20);

    assert_eq!(a.avaliar(), Some(10));
    assert_eq!(b.avaliar(), Some(20));

    let s = Expressao::new_bin_op(OperadorBinario::Adicao, a, b);

    assert_eq!(s.avaliar(), Some(30))
}

#[test]
fn mul_exp() {
    let a = Expressao::new_num(10);
    let b = Expressao::new_num(20);
    let c = Expressao::new_un_op(OperadorUnario::Negacao, b);

    assert_eq!(a.avaliar(), Some(10));
    assert_eq!(c.avaliar(), Some(-20));

    let mult = Expressao::new_bin_op(OperadorBinario::Multiplicacao, a, c);

    assert_eq!(mult.avaliar(), Some(-200))
}

#[test]
fn soma_simples_renderiza_e_avalia() {
    let e = Expressao::new_bin_op(
        OperadorBinario::Adicao,
        Expressao::new_num(5),
        Expressao::new_num(2),
    );
    assert_eq!(e.renderizar(), "5 + 2");
    assert_eq!(e.avaliar(), Some(7));
}

fn produto_com_unarios() -> Expressao {
    let negacao = Expressao::new_un_op(OperadorUnario::Negacao, Expressao::new_num(7));
    let pinguim = Expressao::new_un_op(OperadorUnario::Pinguinacao, Expressao::new_num(3));
    Expressao::new_bin_op(OperadorBinario::Multiplicacao, negacao, pinguim)
}

#[test]
fn produto_com_unarios_renderiza_e_avalia() {
    let e = produto_com_unarios();
    assert_eq!(e.renderizar(), "-7 * 🐧3");
    assert_eq!(e.avaliar(), Some(-21));
}

#[test]
fn divisao_aninhada_avalia() {
    let soma = Expressao::new_bin_op(
        OperadorBinario::Adicao,
        Expressao::new_num(5),
        Expressao::new_num(2),
    );
    let e = Expressao::new_bin_op(OperadorBinario::Divisao, produto_com_unarios(), soma);
    // The left side has the same precedence as the division, so it is not
    // parenthesized; the lower-precedence sum on the right is.
    assert_eq!(e.renderizar(), "-7 * 🐧3 / (5 + 2)");
    assert_eq!(e.avaliar(), Some(-3));
}

#[test]
fn divisao_por_zero_avalia_ausente() {
    let e = Expressao::new_bin_op(
        OperadorBinario::Divisao,
        Expressao::new_num(1),
        Expressao::new_num(0),
    );
    assert_eq!(e.avaliar(), None);
    assert_eq!(e.renderizar(), "1 / 0");
}

#[test]
fn resto_por_zero_avalia_ausente() {
    let e = Expressao::new_bin_op(
        OperadorBinario::RestoDivisao,
        Expressao::new_num(1),
        Expressao::new_num(0),
    );
    assert_eq!(e.avaliar(), None);
    assert_eq!(e.renderizar(), "1 % 0");
}

#[test]
fn soma_com_estouro_avalia_ausente() {
    let e = Expressao::new_bin_op(
        OperadorBinario::Adicao,
        Expressao::new_num(i64::MAX),
        Expressao::new_num(1),
    );
    assert_eq!(e.avaliar(), None);
}

#[test]
fn produto_com_estouro_avalia_ausente() {
    let e = Expressao::new_bin_op(
        OperadorBinario::Multiplicacao,
        Expressao::new_num(i64::MAX),
        Expressao::new_num(2),
    );
    assert_eq!(e.avaliar(), None);
}

#[test]
fn divisao_minimo_por_menos_um_avalia_ausente() {
    let e = Expressao::new_bin_op(
        OperadorBinario::Divisao,
        Expressao::new_num(i64::MIN),
        Expressao::new_num(-1),
    );
    assert_eq!(e.avaliar(), None);
    let r = Expressao::new_bin_op(
        OperadorBinario::RestoDivisao,
        Expressao::new_num(i64::MIN),
        Expressao::new_num(-1),
    );
    assert_eq!(r.avaliar(), None);
}

#[test]
fn negacao_do_minimo_avalia_ausente() {
    let e = Expressao::new_un_op(OperadorUnario::Negacao, Expressao::new_num(i64::MIN));
    assert_eq!(e.avaliar(), None);
}

#[test]
fn ausencia_propaga_pelos_operadores() {
    let zero = Expressao::new_bin_op(
        OperadorBinario::Divisao,
        Expressao::new_num(1),
        Expressao::new_num(0),
    );
    let e = Expressao::new_bin_op(
        OperadorBinario::Adicao,
        Expressao::new_un_op(OperadorUnario::Pinguinacao, zero),
        Expressao::new_num(4),
    );
    assert_eq!(e.avaliar(), None);
}

#[test]
fn pinguinacao_passa_o_valor_adiante() {
    let e = Expressao::new_un_op(OperadorUnario::Pinguinacao, Expressao::new_num(-8));
    assert_eq!(e.avaliar(), Some(-8));
}

#[test]
fn divisao_e_resto_truncam_para_zero() {
    let d = Expressao::new_bin_op(
        OperadorBinario::Divisao,
        Expressao::new_un_op(OperadorUnario::Negacao, Expressao::new_num(7)),
        Expressao::new_num(2),
    );
    assert_eq!(d.avaliar(), Some(-3));
    let r = Expressao::new_bin_op(
        OperadorBinario::RestoDivisao,
        Expressao::new_un_op(OperadorUnario::Negacao, Expressao::new_num(7)),
        Expressao::new_num(3),
    );
    assert_eq!(r.avaliar(), Some(-1));
}

#[test]
fn valores_renderizam_em_decimal() {
    assert_eq!(Expressao::new_num(0).renderizar(), "0");
    assert_eq!(Expressao::new_num(-5).renderizar(), "-5");
    assert_eq!(Expressao::new_num(1234567890).renderizar(), "1234567890");
    assert_eq!(
        Expressao::new_num(i64::MIN).renderizar(),
        "-9223372036854775808"
    );
    assert_eq!(
        Expressao::new_num(i64::MAX).renderizar(),
        "9223372036854775807"
    );
}

#[test]
fn parenteses_somente_em_precedencia_menor() {
    let soma_vezes = Expressao::new_bin_op(
        OperadorBinario::Adicao,
        Expressao::new_bin_op(
            OperadorBinario::Multiplicacao,
            Expressao::new_num(2),
            Expressao::new_num(3),
        ),
        Expressao::new_num(4),
    );
    assert_eq!(soma_vezes.renderizar(), "2 * 3 + 4");

    let vezes_soma = Expressao::new_bin_op(
        OperadorBinario::Multiplicacao,
        Expressao::new_bin_op(
            OperadorBinario::Adicao,
            Expressao::new_num(2),
            Expressao::new_num(3),
        ),
        Expressao::new_num(4),
    );
    assert_eq!(vezes_soma.renderizar(), "(2 + 3) * 4");

    let resto_de_divisao = Expressao::new_bin_op(
        OperadorBinario::RestoDivisao,
        Expressao::new_bin_op(
            OperadorBinario::Divisao,
            Expressao::new_num(8),
            Expressao::new_num(2),
        ),
        Expressao::new_num(3),
    );
    assert_eq!(resto_de_divisao.renderizar(), "(8 / 2) % 3");
}

#[test]
fn precedencia_igual_nunca_parentesiza() {
    let e = Expressao::new_bin_op(
        OperadorBinario::Divisao,
        Expressao::new_bin_op(
            OperadorBinario::Multiplicacao,
            Expressao::new_num(6),
            Expressao::new_num(2),
        ),
        Expressao::new_bin_op(
            OperadorBinario::Multiplicacao,
            Expressao::new_num(2),
            Expressao::new_num(1),
        ),
    );
    assert_eq!(e.renderizar(), "6 * 2 / 2 * 1");
    assert_eq!(e.avaliar(), Some(6));
}

#[test]
fn operando_unario_de_precedencia_menor_parentesiza() {
    let e = Expressao::new_un_op(
        OperadorUnario::Negacao,
        Expressao::new_bin_op(
            OperadorBinario::Adicao,
            Expressao::new_num(1),
            Expressao::new_num(2),
        ),
    );
    assert_eq!(e.renderizar(), "-(1 + 2)");
    assert_eq!(e.avaliar(), Some(-3));
}

#[test]
fn arvore_de_soma_simples() {
    let e = Expressao::new_bin_op(
        OperadorBinario::Adicao,
        Expressao::new_num(5),
        Expressao::new_num(2),
    );
    assert_eq!(e.texto_arvore(), "   +\n   ├── 5\n   └── 2\n");
}

#[test]
fn arvore_com_unarios() {
    let negacao = Expressao::new_un_op(OperadorUnario::Negacao, Expressao::new_num(7));
    assert_eq!(negacao.texto_arvore(), "   -\n   └── 7\n");

    let pinguim = Expressao::new_un_op(OperadorUnario::Pinguinacao, Expressao::new_num(3));
    assert_eq!(pinguim.texto_arvore(), "   🐧\n    └── 3\n");
}

#[test]
fn arvore_marca_irmaos_nao_ultimos() {
    let e = Expressao::new_bin_op(
        OperadorBinario::Adicao,
        Expressao::new_bin_op(
            OperadorBinario::Multiplicacao,
            Expressao::new_num(2),
            Expressao::new_num(3),
        ),
        Expressao::new_num(4),
    );
    assert_eq!(
        e.texto_arvore(),
        "   +\n   ├── *\n   |  ├── 2\n   |  └── 3\n   └── 4\n"
    );
}

#[test]
fn precedencias_dos_nos() {
    assert_eq!(Expressao::new_num(1).precedencia(), 10);
    assert_eq!(OperadorBinario::Adicao.precedencia(), 1);
    assert_eq!(OperadorBinario::Multiplicacao.precedencia(), 2);
    assert_eq!(OperadorBinario::Divisao.precedencia(), 2);
    assert_eq!(OperadorBinario::RestoDivisao.precedencia(), 3);
    assert_eq!(OperadorUnario::Negacao.precedencia(), 3);
    assert_eq!(OperadorUnario::Pinguinacao.precedencia(), 3);
}
