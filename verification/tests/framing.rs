use securechat::address::TipoErroRede;
use securechat::framing::{
    FRAME_PROGRESS_TIMEOUT_MS, MAX_FRAME_BODY, codificar_tamanho, decodificar_tamanho,
    PassoEs, RetornoEs, passo_escrita, passo_leitura, prazo_frame, tempo_restante,
};

#[test]
fn codifica_prefixo_u32_em_big_endian() {
    assert_eq!(codificar_tamanho(1).expect("tamanho válido"), [0, 0, 0, 1]);
    assert_eq!(
        codificar_tamanho(8192).expect("tamanho válido"),
        [0, 0, 0x20, 0]
    );
}

#[test]
fn rejeita_frame_de_tamanho_zero() {
    assert_eq!(
        codificar_tamanho(0).expect_err("zero deve falhar").kind(),
        TipoErroRede::InvalidData
    );
}

#[test]
fn rejeita_frame_de_8193_bytes() {
    assert_eq!(
        codificar_tamanho(8193)
            .expect_err("8193 deve falhar")
            .kind(),
        TipoErroRede::InvalidData
    );
}

#[test]
fn prefixo_decodificado_valida_limites_antes_de_alocar() {
    assert_eq!(decodificar_tamanho([0, 0, 0, 5]).unwrap(), 5);
    assert_eq!(decodificar_tamanho([0, 0, 0x20, 0]).unwrap(), MAX_FRAME_BODY);
    assert_eq!(
        decodificar_tamanho([0, 0, 0, 0]).unwrap_err().kind(),
        TipoErroRede::InvalidData
    );
    assert_eq!(
        decodificar_tamanho([0, 0, 0x20, 1]).unwrap_err().kind(),
        TipoErroRede::InvalidData
    );
    assert_eq!(
        decodificar_tamanho([0xff, 0xff, 0xff, 0xff]).unwrap_err().kind(),
        TipoErroRede::InvalidData
    );
    assert_eq!(
        decodificar_tamanho([0x01, 0, 0, 0x05]).unwrap_err().kind(),
        TipoErroRede::InvalidData
    );
}

#[test]
fn prefixo_ida_e_volta_em_todos_os_tamanhos_validos() {
    for tamanho in 1..=MAX_FRAME_BODY {
        let prefixo = codificar_tamanho(tamanho).unwrap();
        assert_eq!(prefixo, (tamanho as u32).to_be_bytes());
        assert_eq!(decodificar_tamanho(prefixo).unwrap(), tamanho);
    }
}

#[test]
fn tempo_restante_expira_no_deadline() {
    assert_eq!(tempo_restante(15_000, 1_000).unwrap(), 14_000);
    assert_eq!(tempo_restante(1_001, 1_000).unwrap(), 1);
    assert_eq!(
        tempo_restante(1_000, 1_000).unwrap_err().kind(),
        TipoErroRede::TimedOut
    );
    assert_eq!(
        tempo_restante(1_000, 2_000).unwrap_err().kind(),
        TipoErroRede::TimedOut
    );
    assert_eq!(FRAME_PROGRESS_TIMEOUT_MS, 15_000);
}

#[test]
fn prazo_do_frame_e_o_menor_entre_fase_e_progresso() {
    assert_eq!(prazo_frame(100_000, 1_000), 16_000);
    assert_eq!(prazo_frame(10_000, 1_000), 10_000);
    assert_eq!(prazo_frame(16_000, 1_000), 16_000);
    assert_eq!(prazo_frame(500, 1_000), 500);
}

#[test]
fn passos_de_leitura_e_escrita_classificam_o_retorno_do_socket() {
    assert!(matches!(passo_leitura(RetornoEs::Bytes(3), "fim"), PassoEs::Avancar(3)));
    match passo_leitura(RetornoEs::Bytes(0), "body de frame truncado") {
        PassoEs::Falhar(erro) => {
            assert_eq!(erro.kind(), TipoErroRede::UnexpectedEof);
            assert_eq!(erro.mensagem(), "body de frame truncado");
        }
        _ => panic!("EOF esperado"),
    }
    match passo_leitura(RetornoEs::SemTempo, "fim") {
        PassoEs::Falhar(erro) => {
            assert_eq!(erro.kind(), TipoErroRede::TimedOut);
            assert_eq!(erro.mensagem(), "deadline de leitura do frame excedido");
        }
        _ => panic!("timeout esperado"),
    }
    assert!(matches!(passo_leitura(RetornoEs::Interrompido, "fim"), PassoEs::Repetir));
    assert!(matches!(passo_leitura(RetornoEs::Erro, "fim"), PassoEs::Propagar));
    match passo_escrita(RetornoEs::Bytes(0)) {
        PassoEs::Falhar(erro) => assert_eq!(erro.kind(), TipoErroRede::WriteZero),
        _ => panic!("WriteZero esperado"),
    }
    match passo_escrita(RetornoEs::SemTempo) {
        PassoEs::Falhar(erro) => assert_eq!(erro.mensagem(), "deadline de escrita do frame excedido"),
        _ => panic!("timeout esperado"),
    }
    assert!(matches!(passo_escrita(RetornoEs::Bytes(5)), PassoEs::Avancar(5)));
}
