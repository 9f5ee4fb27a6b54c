use securechat::address::{
    EnderecoLocal, ErroRede, ModoExecucao, PapelNoise, TipoErroRede, analisar_modo,
    erro_publico_rede, mensagem_erro_rede, validar_endereco_local,
};

fn v4(octetos: [u8; 4], porta: u16) -> EnderecoLocal {
    EnderecoLocal::V4 { octetos, porta }
}

fn v6(segmentos: [u16; 8], porta: u16) -> EnderecoLocal {
    EnderecoLocal::V6 { segmentos, porta }
}

fn aceita(endereco: EnderecoLocal) {
    assert!(
        validar_endereco_local(endereco).is_ok(),
        "deveria aceitar {endereco:?}"
    );
}

fn rejeita(endereco: EnderecoLocal) {
    assert!(
        validar_endereco_local(endereco).is_err(),
        "deveria rejeitar {endereco:?}"
    );
}

#[test]
fn aceita_ipv4_loopback_e_privado() {
    for endereco in [
        v4([127, 0, 0, 1], 7777),
        v4([127, 20, 30, 40], 7777),
        v4([10, 0, 0, 1], 7777),
        v4([10, 255, 255, 254], 7777),
        v4([172, 16, 0, 1], 7777),
        v4([172, 31, 255, 254], 7777),
        v4([192, 168, 0, 1], 7777),
        v4([192, 168, 255, 254], 7777),
    ] {
        aceita(endereco);
    }
}

#[test]
fn aceita_ipv6_loopback_e_ula() {
    for endereco in [
        v6([0, 0, 0, 0, 0, 0, 0, 1], 7777),
        v6([0xfc00, 0, 0, 0, 0, 0, 0, 1], 7777),
        v6([0xfd12, 0x3456, 0x789a, 0, 0, 0, 0, 1], 7777),
        v6([0xfdff, 0xffff, 0xffff, 0xffff, 0xffff, 0xffff, 0xffff, 0xffff], 7777),
    ] {
        aceita(endereco);
    }
}

#[test]
fn rejeita_unspecified_link_local_publico_global_multicast_e_broadcast() {
    for endereco in [
        v4([0, 0, 0, 0], 7777),
        v6([0, 0, 0, 0, 0, 0, 0, 0], 7777),
        v4([169, 254, 10, 20], 7777),
        v6([0xfe80, 0, 0, 0, 0, 0, 0, 1], 7777),
        v4([8, 8, 8, 8], 7777),
        v6([0x2001, 0x4860, 0x4860, 0, 0, 0, 0, 0x8888], 7777),
        v4([224, 0, 0, 1], 7777),
        v6([0xff02, 0, 0, 0, 0, 0, 0, 1], 7777),
        v4([255, 255, 255, 255], 7777),
    ] {
        rejeita(endereco);
    }
}

#[test]
fn rejeita_documentacao_testnet_porta_zero_e_hostname() {
    for endereco in [
        v4([192, 0, 2, 1], 7777),
        v4([198, 51, 100, 1], 7777),
        v4([203, 0, 113, 1], 7777),
        v6([0x2001, 0xdb8, 0, 0, 0, 0, 0, 1], 7777),
        v4([127, 0, 0, 1], 0),
        v4([192, 168, 1, 20], 0),
    ] {
        rejeita(endereco);
    }
}

#[test]
fn fronteiras_das_faixas_privadas() {
    rejeita(v4([172, 15, 255, 255], 7777));
    rejeita(v4([172, 32, 0, 0], 7777));
    rejeita(v4([192, 169, 0, 1], 7777));
    rejeita(v4([11, 0, 0, 1], 7777));
    rejeita(v4([128, 0, 0, 1], 7777));
    rejeita(v6([0xfbff, 0, 0, 0, 0, 0, 0, 1], 7777));
    rejeita(v6([0xfe00, 0, 0, 0, 0, 0, 0, 1], 7777));
    rejeita(v6([0, 0, 0, 0, 0, 0, 0, 2], 7777));
    aceita(v4([127, 255, 255, 255], 1));
    aceita(v6([0, 0, 0, 0, 0, 0, 0, 1], 65535));
}

#[test]
fn connect_e_initiator_e_listen_e_responder() {
    assert_eq!(
        "connect".parse::<ModoExecucao>().unwrap().papel_noise(),
        PapelNoise::Initiator
    );
    assert_eq!(
        "listen".parse::<ModoExecucao>().unwrap().papel_noise(),
        PapelNoise::Responder
    );
    assert!("outro".parse::<ModoExecucao>().is_err());
}

#[test]
fn modo_exige_texto_exato() {
    assert_eq!(analisar_modo("listen"), Ok(ModoExecucao::Listen));
    assert_eq!(analisar_modo("connect"), Ok(ModoExecucao::Connect));
    for texto in ["", "Listen", "CONNECT", " listen", "listen ", "connec", "connectt"] {
        assert!(analisar_modo(texto).is_err(), "deveria rejeitar {texto:?}");
    }
}

#[test]
fn classifica_erros_publicos_de_rede_sem_contexto_sensivel() {
    let casos = [
        (
            TipoErroRede::ConnectionRefused,
            "conexão recusada pelo peer",
        ),
        (
            TipoErroRede::TimedOut,
            "operação de rede excedeu o tempo limite",
        ),
        (
            TipoErroRede::InvalidInput,
            "endereço ou parâmetro de rede inválido",
        ),
        (TipoErroRede::AddrInUse, "endereço ou porta já está em uso"),
        (
            TipoErroRede::AddrNotAvailable,
            "endereço não está disponível nesta máquina",
        ),
        (TipoErroRede::NetworkUnreachable, "rede inacessível"),
        (TipoErroRede::HostUnreachable, "host inacessível"),
        (TipoErroRede::Other, "falha de rede"),
    ];

    for (tipo, esperado) in casos {
        let erro = ErroRede::novo(tipo, "detalhe interno");
        assert_eq!(mensagem_erro_rede(&erro), esperado);
    }
}

#[test]
fn erro_publico_mantem_tipo_e_troca_mensagem() {
    let erro = ErroRede::novo(TipoErroRede::ConnectionRefused, "detalhe interno 10.0.0.1");
    let publico = erro_publico_rede(erro);
    assert_eq!(publico.kind(), TipoErroRede::ConnectionRefused);
    assert_eq!(publico.mensagem(), "conexão recusada pelo peer");

    let erro = ErroRede::novo(TipoErroRede::UnexpectedEof, "detalhe");
    let publico = erro_publico_rede(erro);
    assert_eq!(publico.kind(), TipoErroRede::UnexpectedEof);
    assert_eq!(publico.mensagem(), "falha de rede");
}
