use securechat::address::{PapelNoise, TipoErroRede};
use securechat::noise_lab::ErroNoise;
use securechat::tcp_handshake::{HandshakeXX, PassoXX, exigir_payload_vazio, proximo_passo_xx};
use securechat::verification::{
    Acao, Aviso, DecisaoUsuario, EstadoSessao, MaquinaInterativa, MotivoClose,
    ResultadoInterativo, SessaoVerificacao,
};

fn par_sessoes() -> (SessaoVerificacao, SessaoVerificacao) {
    let mut initiator = HandshakeXX::novo(PapelNoise::Initiator).unwrap();
    let mut responder = HandshakeXX::novo(PapelNoise::Responder).unwrap();
    let m1 = initiator.escrever_proxima().unwrap();
    responder.ler_proxima(&m1).unwrap();
    let m2 = responder.escrever_proxima().unwrap();
    initiator.ler_proxima(&m2).unwrap();
    let m3 = initiator.escrever_proxima().unwrap();
    responder.ler_proxima(&m3).unwrap();
    (
        SessaoVerificacao::new(initiator.concluir().unwrap()),
        SessaoVerificacao::new(responder.concluir().unwrap()),
    )
}

fn par_maquinas() -> (MaquinaInterativa, MaquinaInterativa) {
    let (alice, bob) = par_sessoes();
    (
        MaquinaInterativa::new(alice, 300_000, 900_000, 0),
        MaquinaInterativa::new(bob, 300_000, 900_000, 0),
    )
}

fn frame_escrito(acao: Acao) -> (Vec<u8>, u64) {
    match acao {
        Acao::Escrever { frame, prazo } => (frame, prazo),
        _ => panic!("escrita esperada"),
    }
}

fn confirmar_ambos(alice: &mut MaquinaInterativa, bob: &mut MaquinaInterativa) {
    let (de_alice, prazo) = frame_escrito(alice.tratar_decisao(DecisaoUsuario::Confirma));
    assert_eq!(prazo, 300_000);
    assert!(matches!(
        alice.apos_escrita(true, 10),
        Acao::Exibir(Aviso::ConfirmacaoLocalEnviada)
    ));
    assert!(matches!(
        bob.tratar_frame(&de_alice, 20),
        Acao::Exibir(Aviso::ConfirmacaoRemota)
    ));
    let (de_bob, _) = frame_escrito(bob.tratar_decisao(DecisaoUsuario::Confirma));
    assert!(matches!(bob.apos_escrita(true, 30), Acao::Continuar));
    assert!(matches!(alice.tratar_frame(&de_bob, 40), Acao::Continuar));
    assert_eq!(alice.estado(), EstadoSessao::Verified);
    assert_eq!(bob.estado(), EstadoSessao::Verified);
    assert!(matches!(alice.preparar(50), Acao::IniciarChat));
    assert!(matches!(bob.preparar(50), Acao::IniciarChat));
}

#[test]
fn roteiro_xx_alterna_papeis_e_termina_apos_tres_mensagens() {
    for n in 0..3 {
        let i = proximo_passo_xx(PapelNoise::Initiator, n);
        let r = proximo_passo_xx(PapelNoise::Responder, n);
        assert_ne!(i, r);
        assert_ne!(i, PassoXX::Concluido);
    }
    assert_eq!(proximo_passo_xx(PapelNoise::Initiator, 0), PassoXX::Enviar);
    assert_eq!(proximo_passo_xx(PapelNoise::Responder, 0), PassoXX::Receber);
    assert_eq!(proximo_passo_xx(PapelNoise::Initiator, 3), PassoXX::Concluido);
    assert_eq!(proximo_passo_xx(PapelNoise::Responder, 7), PassoXX::Concluido);
}

#[test]
fn handshake_fora_de_ordem_e_recusado() {
    let mut initiator = HandshakeXX::novo(PapelNoise::Initiator).unwrap();
    let mut responder = HandshakeXX::novo(PapelNoise::Responder).unwrap();
    assert!(matches!(responder.escrever_proxima(), Err(ErroNoise::ForaDeOrdem)));
    assert!(matches!(initiator.ler_proxima(&[0; 32]), Err(ErroNoise::ForaDeOrdem)));
    assert!(matches!(initiator.concluir(), Err(ErroNoise::ForaDeOrdem)));
    assert_eq!(responder.passo(), PassoXX::Receber);
}

#[test]
fn handshake_com_payload_nao_vazio_e_rejeitado() {
    let mut alice = securechat::noise_lab::criar_initiator().unwrap().estado_snow();
    let mut responder = HandshakeXX::novo(PapelNoise::Responder).unwrap();
    let mut mensagem = [0_u8; 8192];
    let tamanho = alice.write_message(b"payload proibido", &mut mensagem).unwrap();
    assert!(matches!(
        responder.ler_proxima(&mensagem[..tamanho]),
        Err(ErroNoise::PayloadNaoVazio)
    ));
}

#[test]
fn fluxo_honesto_verifica_conversa_e_fecha_com_autenticacao() {
    let (mut alice, mut bob) = par_maquinas();
    assert!(matches!(alice.preparar(0), Acao::Aguardar(300_000)));
    confirmar_ambos(&mut alice, &mut bob);
    assert!(matches!(alice.preparar(60), Acao::Aguardar(899_990)));

    let (chat, prazo) = frame_escrito(alice.tratar_linha_chat("olá", 100));
    assert_eq!(prazo, 15_100);
    assert!(matches!(alice.apos_escrita(true, 100), Acao::Exibir(Aviso::ChatEnviado)));
    assert!(matches!(alice.preparar(100), Acao::Aguardar(900_000)));
    match bob.tratar_frame(&chat, 200) {
        Acao::Exibir(Aviso::ChatRecebido(conteudo)) => assert_eq!(conteudo, "olá"),
        _ => panic!("CHAT esperado"),
    }
    assert!(matches!(bob.preparar(200), Acao::Aguardar(900_000)));

    let (close, prazo) = frame_escrito(alice.tratar_encerramento_local(300));
    assert_eq!(prazo, 5_300);
    assert!(matches!(alice.apos_escrita(true, 300), Acao::Continuar));
    assert_eq!(alice.estado(), EstadoSessao::Closing);
    assert!(matches!(alice.preparar(300), Acao::Aguardar(5_000)));

    let (resposta, _) = frame_escrito(bob.tratar_frame(&close, 400));
    assert!(matches!(
        bob.apos_escrita(true, 400),
        Acao::Encerrar {
            resultado: ResultadoInterativo::VerifiedAndClosed,
            aviso: Some(Aviso::CloseRecebido(MotivoClose::Normal)),
            desligar: true,
        }
    ));
    assert!(matches!(
        alice.tratar_frame(&resposta, 500),
        Acao::Encerrar {
            resultado: ResultadoInterativo::VerifiedAndClosed,
            aviso: Some(Aviso::CloseRecebido(MotivoClose::Normal)),
            desligar: true,
        }
    ));
    assert_eq!(alice.estado(), EstadoSessao::Closed);
    assert_eq!(bob.estado(), EstadoSessao::Closed);
}

#[test]
fn divergencia_termina_em_falha_e_cancelamento_em_close_autenticado_do_peer() {
    let (mut alice, mut bob) = par_maquinas();
    let (close, _) = frame_escrito(alice.tratar_decisao(DecisaoUsuario::Diverge));
    assert!(matches!(
        alice.apos_escrita(false, 10),
        Acao::Encerrar {
            resultado: ResultadoInterativo::FingerprintMismatch,
            aviso: Some(Aviso::FingerprintDivergente),
            desligar: true,
        }
    ));
    assert_eq!(alice.estado(), EstadoSessao::Failed);

    let (_, _) = frame_escrito(bob.tratar_frame(&close, 20));
    assert!(matches!(
        bob.apos_escrita(false, 20),
        Acao::Encerrar {
            resultado: ResultadoInterativo::AuthenticatedClose,
            aviso: Some(Aviso::CloseRecebido(MotivoClose::VerificationAborted)),
            desligar: true,
        }
    ));
}

#[test]
fn prazos_de_verificacao_idle_e_close_sao_tratados() {
    let (mut alice, _) = par_maquinas();
    let (_, prazo) = frame_escrito(alice.preparar(300_000));
    assert_eq!(prazo, 305_000);
    assert!(matches!(
        alice.apos_escrita(true, 300_000),
        Acao::Encerrar {
            resultado: ResultadoInterativo::VerificationTimeout,
            aviso: Some(Aviso::TimeoutVerificacao),
            desligar: true,
        }
    ));
    assert_eq!(alice.estado(), EstadoSessao::Closed);

    let (mut alice, mut bob) = par_maquinas();
    confirmar_ambos(&mut alice, &mut bob);
    let (close, prazo) = frame_escrito(alice.preparar(900_050));
    assert_eq!(prazo, 905_050);
    assert!(matches!(alice.apos_escrita(true, 900_050), Acao::Exibir(Aviso::IdleTimeout)));
    assert!(matches!(
        alice.preparar(905_050),
        Acao::Encerrar {
            resultado: ResultadoInterativo::CloseTimeout,
            aviso: Some(Aviso::TimeoutClose),
            desligar: true,
        }
    ));
    let (_, _) = frame_escrito(bob.tratar_frame(&close, 900_060));
}

#[test]
fn falhas_de_rede_nao_sao_encerramento_autenticado() {
    let (mut alice, _) = par_maquinas();
    assert!(matches!(
        alice.tratar_falha_rede(TipoErroRede::UnexpectedEof),
        Acao::Encerrar {
            resultado: ResultadoInterativo::NetworkInterruption,
            aviso: Some(Aviso::ConexaoEncerradaSemClose),
            desligar: true,
        }
    ));
    assert_eq!(alice.estado(), EstadoSessao::Closed);

    let (mut alice, _) = par_maquinas();
    assert!(matches!(
        alice.tratar_falha_rede(TipoErroRede::InvalidData),
        Acao::Encerrar {
            resultado: ResultadoInterativo::ProtocolFailure,
            aviso: None,
            desligar: true,
        }
    ));
    assert_eq!(alice.estado(), EstadoSessao::Failed);

    let (mut alice, _) = par_maquinas();
    assert!(matches!(
        alice.tratar_desconexao(),
        Acao::Encerrar {
            resultado: ResultadoInterativo::NetworkInterruption,
            aviso: None,
            desligar: false,
        }
    ));
}

#[test]
fn frame_adulterado_encerra_com_falha_aead() {
    let (mut alice, mut bob) = par_maquinas();
    let (mut frame, _) = frame_escrito(bob.tratar_decisao(DecisaoUsuario::Confirma));
    let ultimo = frame.len() - 1;
    frame[ultimo] ^= 1;
    assert!(matches!(
        alice.tratar_frame(&frame, 10),
        Acao::Encerrar {
            resultado: ResultadoInterativo::AeadFailure,
            aviso: None,
            desligar: true,
        }
    ));
    assert_eq!(alice.estado(), EstadoSessao::Failed);
    assert!(matches!(
        alice.preparar(20),
        Acao::Encerrar {
            resultado: ResultadoInterativo::ProtocolFailure,
            ..
        }
    ));
}

#[test]
fn chat_fora_de_verified_e_ignorado_e_tamanho_invalido_e_avisado() {
    let (mut alice, mut bob) = par_maquinas();
    assert!(matches!(alice.tratar_linha_chat("cedo", 0), Acao::Continuar));
    confirmar_ambos(&mut alice, &mut bob);
    assert!(matches!(
        alice.tratar_linha_chat("", 60),
        Acao::Exibir(Aviso::MensagemRejeitada)
    ));
    assert!(matches!(
        alice.tratar_linha_chat(&"a".repeat(4097), 60),
        Acao::Exibir(Aviso::MensagemRejeitada)
    ));
    assert_eq!(alice.estado(), EstadoSessao::Verified);
    assert!(matches!(alice.tratar_decisao(DecisaoUsuario::Confirma), Acao::Continuar));
}

#[test]
fn payload_do_handshake_so_e_aceito_vazio() {
    assert!(exigir_payload_vazio(0).is_ok());
    assert!(matches!(exigir_payload_vazio(1), Err(ErroNoise::PayloadNaoVazio)));
    assert!(matches!(exigir_payload_vazio(8192), Err(ErroNoise::PayloadNaoVazio)));
}
