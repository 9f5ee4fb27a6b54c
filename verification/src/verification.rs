//! Verificação explícita do fingerprint e sessão autenticada: a máquina de
//! estados `UNVERIFIED` → `VERIFIED` → `CLOSING` → `CLOSED`/`FAILED`, os
//! payloads de aplicação `VERIFY_CONFIRMED`, `CHAT` e `CLOSE`, e os prazos.

use vstd::prelude::*;
use vstd::string::StringSliceAdditionalSpecFns;
use vstd::utf8::{decode_utf8, valid_utf8};
use crate::address::textos_iguais;
use crate::noise_lab::{CanalNoise, PROTOCOL_NAME, TAG_LEN, apagar_bytes, texto_fingerprint};

verus! {

pub const VERIFY_CONFIRMED: u8 = 0x01;

pub const CHAT: u8 = 0x02;

pub const CLOSE: u8 = 0x03;

pub const TRANSPORT_BUFFER_SIZE: usize = 8192;

pub const MAX_CHAT_CONTENT: usize = 4096;

/// Prazo total da verificação, em milissegundos (5 minutos).
pub const VERIFICATION_TIMEOUT_MS: u64 = 300000;

/// Espera pela resposta a um `CLOSE`, em milissegundos (5 segundos).
pub const CLOSE_RESPONSE_TIMEOUT_MS: u64 = 5000;

/// Limite ocioso em `VERIFIED`, em milissegundos (15 minutos).
pub const VERIFIED_IDLE_TIMEOUT_MS: u64 = 900000;

/// Prazo ocioso de `VERIFIED`, reiniciado a cada mensagem autenticada
/// completa enviada ou recebida. Instantes em milissegundos monotônicos.
#[derive(Clone, Copy)]
pub struct ControleIdle {
    duracao: u64,
    deadline: u64,
}

impl ControleIdle {
    pub closed spec fn duracao_idle(&self) -> u64 {
        self.duracao
    }

    pub closed spec fn deadline_idle(&self) -> u64 {
        self.deadline
    }

    /// Prazo `duracao` depois de `agora`, saturado no maior instante.
    pub fn new(duracao: u64, agora: u64) -> (controle: ControleIdle)
        ensures
            controle.duracao_idle() == duracao,
            controle.deadline_idle() == agora.saturating_add(duracao),
    {
        ControleIdle { duracao, deadline: agora.saturating_add(duracao) }
    }

    pub fn registrar_atividade(&mut self, agora: u64)
        ensures
            final(self).duracao_idle() == old(self).duracao_idle(),
            final(self).deadline_idle() == agora.saturating_add(old(self).duracao_idle()),
    {
        self.deadline = agora.saturating_add(self.duracao);
    }

    pub fn deadline(&self) -> (deadline: u64)
        ensures
            deadline == self.deadline_idle(),
    {
        self.deadline
    }

    pub fn duracao(&self) -> (duracao: u64)
        ensures
            duracao == self.duracao_idle(),
    {
        self.duracao
    }
}

#[derive(Clone, Copy, Debug, PartialEq, Eq, Structural)]
pub enum EstadoSessao {
    Unverified,
    Verified,
    Closing,
    Closed,
    Failed,
}

/// Motivo informativo carregado por `CLOSE`.
#[derive(Clone, Copy, Debug, PartialEq, Eq, Structural)]
pub enum MotivoClose {
    Normal,
    VerificationAborted,
    IdleTimeout,
}

/// Valor do byte `reason` de cada motivo.
pub open spec fn byte_do_motivo(motivo: MotivoClose) -> u8 {
    match motivo {
        MotivoClose::Normal => 0x00,
        MotivoClose::VerificationAborted => 0x01,
        MotivoClose::IdleTimeout => 0x02,
    }
}

/// Motivo de um byte `reason`; outros valores são desconhecidos.
pub open spec fn motivo_do_byte(valor: u8) -> Option<MotivoClose> {
    if valor == 0x00 {
        Some(MotivoClose::Normal)
    } else if valor == 0x01 {
        Some(MotivoClose::VerificationAborted)
    } else if valor == 0x02 {
        Some(MotivoClose::IdleTimeout)
    } else {
        None
    }
}

impl MotivoClose {
    pub fn from_byte(valor: u8) -> (motivo: Option<MotivoClose>)
        ensures
            motivo == motivo_do_byte(valor),
    {
        match valor {
            0x00 => Some(MotivoClose::Normal),
            0x01 => Some(MotivoClose::VerificationAborted),
            0x02 => Some(MotivoClose::IdleTimeout),
            _ => None,
        }
    }

    pub fn byte(self) -> (valor: u8)
        ensures
            valor == byte_do_motivo(self),
    {
        match self {
            MotivoClose::Normal => 0x00,
            MotivoClose::VerificationAborted => 0x01,
            MotivoClose::IdleTimeout => 0x02,
        }
    }
}

/// Os motivos de `CLOSE` têm os valores fixos do protocolo no fio:
/// `NORMAL` é 0x00, `VERIFICATION_ABORTED` é 0x01 e `IDLE_TIMEOUT` é 0x02;
/// todo outro byte é desconhecido, e ler o byte de um motivo devolve o mesmo
/// motivo.
pub proof fn lei_motivos_no_fio(b: u8, m: MotivoClose)
    ensures
        byte_do_motivo(MotivoClose::Normal) == 0x00u8,
        byte_do_motivo(MotivoClose::VerificationAborted) == 0x01u8,
        byte_do_motivo(MotivoClose::IdleTimeout) == 0x02u8,
        b == 0x00 <==> motivo_do_byte(b) == Some(MotivoClose::Normal),
        b == 0x01 <==> motivo_do_byte(b) == Some(MotivoClose::VerificationAborted),
        b == 0x02 <==> motivo_do_byte(b) == Some(MotivoClose::IdleTimeout),
        b > 0x02 <==> motivo_do_byte(b) is None,
        motivo_do_byte(byte_do_motivo(m)) == Some(m),
{
}

/// Nome de protocolo de cada motivo, para exibição.
pub fn nome_motivo(motivo: MotivoClose) -> (nome: &'static str)
    ensures
        nome@ == (match motivo {
            MotivoClose::Normal => "NORMAL"@,
            MotivoClose::VerificationAborted => "VERIFICATION_ABORTED"@,
            MotivoClose::IdleTimeout => "IDLE_TIMEOUT"@,
        }),
{
    match motivo {
        MotivoClose::Normal => "NORMAL",
        MotivoClose::VerificationAborted => "VERIFICATION_ABORTED",
        MotivoClose::IdleTimeout => "IDLE_TIMEOUT",
    }
}

#[derive(Clone, Copy, Debug, PartialEq, Eq, Structural)]
pub enum CategoriaErroSessao {
    /// Falha de cifra, decifração ou autenticação Noise.
    Aead,
    /// Mensagem de aplicação inválida, inesperada ou fora de formato.
    Protocolo,
    /// Evento local inválido no estado atual.
    Estado,
}

/// Erro de sessão com categoria e mensagem pública fixa.
#[derive(Clone, Copy, Debug)]
pub struct ErroSessao {
    pub categoria: CategoriaErroSessao,
    pub mensagem: &'static str,
}

impl ErroSessao {
    fn novo(categoria: CategoriaErroSessao, mensagem: &'static str) -> (erro: ErroSessao)
        ensures
            erro.categoria == categoria,
            erro.mensagem@ == mensagem@,
    {
        ErroSessao { categoria, mensagem }
    }

    pub fn categoria(&self) -> (categoria: CategoriaErroSessao)
        ensures
            categoria == self.categoria,
    {
        self.categoria
    }

    pub fn mensagem(&self) -> (mensagem: &'static str)
        ensures
            mensagem@ == self.mensagem@,
    {
        self.mensagem
    }
}

/// Estado de controle da sessão: o estado da máquina e os flags de
/// confirmação e encerramento.
#[derive(Clone, Copy, Debug, PartialEq, Eq, Structural)]
pub struct ControleSessao {
    pub estado: EstadoSessao,
    pub local_confirmed: bool,
    pub peer_confirmed: bool,
    pub verify_sent: bool,
    pub close_sent: bool,
    pub peer_close_received: bool,
}

impl ControleSessao {
    /// Controle de uma sessão recém-estabelecida.
    pub open spec fn inicial() -> ControleSessao {
        ControleSessao {
            estado: EstadoSessao::Unverified,
            local_confirmed: false,
            peer_confirmed: false,
            verify_sent: false,
            close_sent: false,
            peer_close_received: false,
        }
    }

    pub open spec fn terminal(self) -> bool {
        self.estado == EstadoSessao::Closed || self.estado == EstadoSessao::Failed
    }

    pub open spec fn com_estado(self, estado: EstadoSessao) -> ControleSessao {
        ControleSessao { estado, ..self }
    }

    pub open spec fn falhar(self) -> ControleSessao {
        self.com_estado(EstadoSessao::Failed)
    }

    /// Em `UNVERIFIED`, as duas confirmações levam a `VERIFIED`.
    pub open spec fn atualizar_verified(self) -> ControleSessao {
        if self.estado == EstadoSessao::Unverified && self.local_confirmed && self.peer_confirmed {
            self.com_estado(EstadoSessao::Verified)
        } else {
            self
        }
    }

    /// Depois da confirmação local: flags marcados e, se o peer já confirmou,
    /// `VERIFIED`.
    pub open spec fn apos_confirmacao_local(self) -> ControleSessao {
        ControleSessao { local_confirmed: true, verify_sent: true, ..self }.atualizar_verified()
    }

    /// Depois de um `CLOSE` local enviado em `UNVERIFIED` ou `VERIFIED`.
    pub open spec fn apos_close_local(self) -> ControleSessao {
        ControleSessao { estado: EstadoSessao::Closing, close_sent: true, ..self }
    }

    /// Depois do `CLOSE(VERIFICATION_ABORTED)` de divergência (`FAILED`) ou
    /// de cancelamento e timeout de verificação (`CLOSED`).
    pub open spec fn apos_aborto(self, destino: EstadoSessao) -> ControleSessao {
        ControleSessao { estado: destino, close_sent: true, ..self }
    }

    /// Depois de tratar um `CLOSE` remoto autenticado: só uma sessão em
    /// `CLOSING` passa a `CLOSED`; `FAILED` continua `FAILED`.
    pub open spec fn apos_concluir_close(self) -> ControleSessao {
        if self.peer_close_received && self.estado == EstadoSessao::Closing {
            self.com_estado(EstadoSessao::Closed)
        } else {
            self
        }
    }

    /// Depois do prazo de resposta a `CLOSE`.
    pub open spec fn apos_timeout_close(self) -> ControleSessao {
        if self.estado == EstadoSessao::Closing {
            self.com_estado(EstadoSessao::Closed)
        } else {
            self
        }
    }

    /// Depois de uma interrupção comum da conexão.
    pub open spec fn apos_interrupcao(self) -> ControleSessao {
        if self.terminal() {
            self
        } else {
            self.com_estado(EstadoSessao::Closed)
        }
    }

    /// Depois de uma violação de protocolo vista no framing.
    pub open spec fn apos_falha_protocolo(self) -> ControleSessao {
        if self.terminal() {
            self
        } else {
            self.falhar()
        }
    }

    /// Invariante mantido por todas as operações da sessão.
    pub open spec fn valido(self) -> bool {
        &&& self.local_confirmed == self.verify_sent
        &&& self.estado == EstadoSessao::Verified ==> self.local_confirmed && self.peer_confirmed
        &&& self.estado == EstadoSessao::Unverified ==> !(self.local_confirmed && self.peer_confirmed)
        &&& self.estado == EstadoSessao::Closing ==> self.close_sent
        &&& self.close_sent ==> self.estado == EstadoSessao::Closing || self.terminal()
        &&& self.peer_close_received ==> self.estado == EstadoSessao::Closing || self.terminal()
    }

    pub fn novo() -> (controle: ControleSessao)
        ensures
            controle == ControleSessao::inicial(),
    {
        ControleSessao {
            estado: EstadoSessao::Unverified,
            local_confirmed: false,
            peer_confirmed: false,
            verify_sent: false,
            close_sent: false,
            peer_close_received: false,
        }
    }

    fn falha(self) -> (c: ControleSessao)
        ensures
            c == self.falhar(),
    {
        ControleSessao { estado: EstadoSessao::Failed, ..self }
    }
}

/// Plaintext exatamente igual a `VERIFY_CONFIRMED`.
pub open spec fn e_confirmacao(pt: Seq<u8>) -> bool {
    pt.len() == 1 && pt[0] == VERIFY_CONFIRMED
}

/// Plaintext de `CLOSE`: tipo e exatamente um byte de motivo.
pub open spec fn e_close(pt: Seq<u8>) -> bool {
    pt.len() == 2 && pt[0] == CLOSE
}

/// Plaintext de `CHAT`: tipo seguido do conteúdo.
pub open spec fn e_chat(pt: Seq<u8>) -> bool {
    pt.len() >= 1 && pt[0] == CHAT
}

/// Conteúdo de chat aceito: UTF-8 válido de 1 a 4096 bytes.
pub open spec fn conteudo_chat_valido(conteudo: Seq<u8>) -> bool {
    1 <= conteudo.len() <= MAX_CHAT_CONTENT && valid_utf8(conteudo)
}

/// Se um plaintext autenticado é aceito no controle `c`.
pub open spec fn aceita_mensagem(c: ControleSessao, pt: Seq<u8>) -> bool {
    if e_confirmacao(pt) {
        c.estado == EstadoSessao::Unverified && !c.peer_confirmed
    } else if e_close(pt) {
        &&& (c.estado == EstadoSessao::Unverified || c.estado == EstadoSessao::Verified
            || c.estado == EstadoSessao::Closing)
        &&& !c.peer_close_received
        &&& motivo_do_byte(pt[1]) is Some
    } else if e_chat(pt) {
        c.estado == EstadoSessao::Verified && conteudo_chat_valido(pt.drop_first())
    } else {
        false
    }
}

/// Controle depois de um plaintext autenticado: mensagem rejeitada leva a
/// `FAILED`; `CLOSE` aceito leva a `CLOSING` com o `CLOSE` local enviado.
pub open spec fn controle_apos_mensagem(c: ControleSessao, pt: Seq<u8>) -> ControleSessao {
    if !aceita_mensagem(c, pt) {
        c.falhar()
    } else if e_confirmacao(pt) {
        ControleSessao { peer_confirmed: true, ..c }.atualizar_verified()
    } else if e_close(pt) {
        ControleSessao {
            estado: EstadoSessao::Closing,
            close_sent: true,
            peer_close_received: true,
            ..c
        }
    } else {
        c
    }
}

/// Mensagem pública da rejeição de um plaintext autenticado.
pub open spec fn mensagem_rejeicao(c: ControleSessao, pt: Seq<u8>) -> Seq<char> {
    if e_confirmacao(pt) {
        if c.estado != EstadoSessao::Unverified {
            "VERIFY_CONFIRMED fora de UNVERIFIED"@
        } else {
            "VERIFY_CONFIRMED remoto duplicado"@
        }
    } else if e_close(pt) {
        if !(c.estado == EstadoSessao::Unverified || c.estado == EstadoSessao::Verified
            || c.estado == EstadoSessao::Closing) {
            "CLOSE inválido no estado atual"@
        } else if c.peer_close_received {
            "CLOSE remoto duplicado"@
        } else {
            "reason de CLOSE desconhecido"@
        }
    } else if e_chat(pt) {
        if c.estado != EstadoSessao::Verified {
            "CHAT fora de VERIFIED"@
        } else if pt.len() == 1 {
            "CHAT vazio"@
        } else if pt.len() - 1 > MAX_CHAT_CONTENT {
            "CHAT excede 4096 bytes"@
        } else {
            "CHAT contém UTF-8 inválido"@
        }
    } else {
        "mensagem de aplicação inválida ou desconhecida"@
    }
}

/// Mensagem de aplicação interpretada de um plaintext autenticado.
pub enum MensagemAplicacao {
    VerifyConfirmed,
    Chat(String),
    Close(MotivoClose),
}

/// Resultado de interpretar um plaintext: o próximo controle e a mensagem
/// aceita ou o erro de protocolo.
pub struct Interpretacao {
    pub proximo: ControleSessao,
    pub resultado: Result<MensagemAplicacao, ErroSessao>,
}

/// `std::str::from_utf8` seguido de cópia: `Some` exatamente quando os bytes
/// são UTF-8 válido, com os caracteres que eles codificam.
#[verifier::external_body]
fn texto_utf8(bytes: &[u8]) -> (texto: Option<String>)
    ensures
        texto is Some <==> valid_utf8(bytes@),
        texto matches Some(t) ==> t@ == decode_utf8(bytes@),
{
    match std::str::from_utf8(bytes) {
        Ok(t) => Some(t.to_owned()),
        Err(_) => None,
    }
}

impl ControleSessao {
    /// Interpreta um plaintext já autenticado pelo transporte Noise.
    pub fn interpretar(&self, pt: &[u8]) -> (r: Interpretacao)
        ensures
            r.proximo == controle_apos_mensagem(*self, pt@),
            r.resultado is Ok <==> aceita_mensagem(*self, pt@),
            r.resultado matches Err(e) ==> e.categoria == CategoriaErroSessao::Protocolo
                && e.mensagem@ == mensagem_rejeicao(*self, pt@),
            r.resultado matches Ok(m) ==> match m {
                MensagemAplicacao::VerifyConfirmed => e_confirmacao(pt@),
                MensagemAplicacao::Chat(texto) => e_chat(pt@) && texto@ == decode_utf8(
                    pt@.drop_first(),
                ),
                MensagemAplicacao::Close(motivo) => e_close(pt@) && motivo_do_byte(pt@[1])
                    == Some(motivo),
            },
    {
        let c = *self;
        let tamanho = pt.len();
        if tamanho == 1 && pt[0] == VERIFY_CONFIRMED {
            if c.estado != EstadoSessao::Unverified {
                return Interpretacao {
                    proximo: c.falha(),
                    resultado: Err(
                        ErroSessao::novo(
                            CategoriaErroSessao::Protocolo,
                            "VERIFY_CONFIRMED fora de UNVERIFIED",
                        ),
                    ),
                };
            }
            if c.peer_confirmed {
                return Interpretacao {
                    proximo: c.falha(),
                    resultado: Err(
                        ErroSessao::novo(
                            CategoriaErroSessao::Protocolo,
                            "VERIFY_CONFIRMED remoto duplicado",
                        ),
                    ),
                };
            }
            let confirmado = ControleSessao { peer_confirmed: true, ..c };
            let proximo = if confirmado.local_confirmed {
                ControleSessao { estado: EstadoSessao::Verified, ..confirmado }
            } else {
                confirmado
            };
            Interpretacao { proximo, resultado: Ok(MensagemAplicacao::VerifyConfirmed) }
        } else if tamanho == 2 && pt[0] == CLOSE {
            if !(c.estado == EstadoSessao::Unverified || c.estado == EstadoSessao::Verified
                || c.estado == EstadoSessao::Closing) {
                return Interpretacao {
                    proximo: c.falha(),
                    resultado: Err(
                        ErroSessao::novo(
                            CategoriaErroSessao::Protocolo,
                            "CLOSE inválido no estado atual",
                        ),
                    ),
                };
            }
            if c.peer_close_received {
                return Interpretacao {
                    proximo: c.falha(),
                    resultado: Err(
                        ErroSessao::novo(CategoriaErroSessao::Protocolo, "CLOSE remoto duplicado"),
                    ),
                };
            }
            match MotivoClose::from_byte(pt[1]) {
                Some(motivo) => Interpretacao {
                    proximo: ControleSessao {
                        estado: EstadoSessao::Closing,
                        close_sent: true,
                        peer_close_received: true,
                        ..c
                    },
                    resultado: Ok(MensagemAplicacao::Close(motivo)),
                },
                None => Interpretacao {
                    proximo: c.falha(),
                    resultado: Err(
                        ErroSessao::novo(
                            CategoriaErroSessao::Protocolo,
                            "reason de CLOSE desconhecido",
                        ),
                    ),
                },
            }
        } else if tamanho >= 1 && pt[0] == CHAT {
            if c.estado != EstadoSessao::Verified {
                return Interpretacao {
                    proximo: c.falha(),
                    resultado: Err(
                        ErroSessao::novo(CategoriaErroSessao::Protocolo, "CHAT fora de VERIFIED"),
                    ),
                };
            }
            if tamanho == 1 {
                return Interpretacao {
                    proximo: c.falha(),
                    resultado: Err(ErroSessao::novo(CategoriaErroSessao::Protocolo, "CHAT vazio")),
                };
            }
            if tamanho - 1 > MAX_CHAT_CONTENT {
                return Interpretacao {
                    proximo: c.falha(),
                    resultado: Err(
                        ErroSessao::novo(CategoriaErroSessao::Protocolo, "CHAT excede 4096 bytes"),
                    ),
                };
            }
            let conteudo = vstd::slice::slice_subrange(pt, 1, tamanho);
            assert(conteudo@ =~= pt@.drop_first());
            match texto_utf8(conteudo) {
                Some(texto) => Interpretacao {
                    proximo: c,
                    resultado: Ok(MensagemAplicacao::Chat(texto)),
                },
                None => Interpretacao {
                    proximo: c.falha(),
                    resultado: Err(
                        ErroSessao::novo(
                            CategoriaErroSessao::Protocolo,
                            "CHAT contém UTF-8 inválido",
                        ),
                    ),
                },
            }
        } else {
            Interpretacao {
                proximo: c.falha(),
                resultado: Err(
                    ErroSessao::novo(
                        CategoriaErroSessao::Protocolo,
                        "mensagem de aplicação inválida ou desconhecida",
                    ),
                ),
            }
        }
    }
}

} // verus!

verus! {

/// Evento remoto autenticado entregue à aplicação.
pub enum EventoRemoto {
    VerifyConfirmed,
    Chat(String),
    Close { motivo: MotivoClose, resposta: Option<Vec<u8>> },
}

/// Sessão pós-handshake: o canal Noise e o controle de verificação. A
/// transcrição (plaintexts e ciphertexts trocados com o Snow) é o registro
/// do próprio canal.
pub struct SessaoVerificacao {
    canal: CanalNoise,
    controle: ControleSessao,
}

impl View for SessaoVerificacao {
    type V = ControleSessao;

    closed spec fn view(&self) -> ControleSessao {
        self.controle
    }
}

impl SessaoVerificacao {
    #[verifier::type_invariant]
    spec fn controle_valido(self) -> bool {
        self.controle.valido()
    }

    /// Plaintexts cifrados com sucesso pelo canal, na ordem de envio.
    pub closed spec fn enviados(&self) -> Seq<Seq<u8>> {
        self.canal.transporte_atual().textos_cifrados()
    }

    /// Ciphertexts que o canal produziu para esses plaintexts, na mesma ordem.
    pub closed spec fn cifrados_enviados(&self) -> Seq<Seq<u8>> {
        self.canal.transporte_atual().mensagens_enviadas()
    }

    /// Frames entregues ao canal para decifrar, autenticados ou não.
    pub closed spec fn frames_recebidos(&self) -> Seq<Seq<u8>> {
        self.canal.transporte_atual().mensagens_recebidas()
    }

    /// Plaintexts autenticados e decifrados pelo canal, na ordem de chegada.
    pub closed spec fn recebidos(&self) -> Seq<Seq<u8>> {
        self.canal.transporte_atual().textos_decifrados()
    }

    /// Hash do handshake que vincula o canal.
    pub closed spec fn hash_sessao(&self) -> Seq<u8> {
        self.canal.hash_sessao()
    }

    /// Nonce da próxima mensagem cifrada pelo canal.
    pub closed spec fn nonce_envio(&self) -> nat {
        self.canal.nonce_envio()
    }

    /// Nome do protocolo do handshake que originou o canal.
    pub closed spec fn protocolo_canal(&self) -> Seq<char> {
        self.canal.protocolo()
    }

    /// O canal ainda pode cifrar: protocolo fixo e nonce de envio não
    /// esgotado.
    pub open spec fn cifra_disponivel(&self) -> bool {
        self.protocolo_canal() == PROTOCOL_NAME@ && self.nonce_envio() < u64::MAX
    }

    /// Nada foi cifrado: plaintexts, ciphertexts e nonce de envio iguais.
    pub open spec fn envios_iguais(antes: &SessaoVerificacao, depois: &SessaoVerificacao) -> bool {
        &&& depois.enviados() == antes.enviados()
        &&& depois.cifrados_enviados() == antes.cifrados_enviados()
        &&& depois.nonce_envio() == antes.nonce_envio()
    }

    /// Nada foi cifrado nem decifrado com sucesso; o canal é o mesmo.
    pub open spec fn mesma_transcricao_exceto_entrada(antes: &SessaoVerificacao, depois: &SessaoVerificacao) -> bool {
        &&& SessaoVerificacao::envios_iguais(antes, depois)
        &&& depois.recebidos() == antes.recebidos()
        &&& depois.hash_sessao() == antes.hash_sessao()
        &&& depois.protocolo_canal() == antes.protocolo_canal()
    }

    /// Nenhuma mudança na transcrição do canal.
    pub open spec fn mesma_transcricao(antes: &SessaoVerificacao, depois: &SessaoVerificacao) -> bool {
        &&& SessaoVerificacao::mesma_transcricao_exceto_entrada(antes, depois)
        &&& depois.frames_recebidos() == antes.frames_recebidos()
    }

    pub fn new(canal: CanalNoise) -> (sessao: SessaoVerificacao)
        ensures
            sessao@ == ControleSessao::inicial(),
            sessao.enviados() == canal.transporte_atual().textos_cifrados(),
            sessao.cifrados_enviados() == canal.transporte_atual().mensagens_enviadas(),
            sessao.frames_recebidos() == canal.transporte_atual().mensagens_recebidas(),
            sessao.recebidos() == canal.transporte_atual().textos_decifrados(),
            sessao.hash_sessao() == canal.hash_sessao(),
            sessao.nonce_envio() == canal.nonce_envio(),
            sessao.protocolo_canal() == canal.protocolo(),
    {
        SessaoVerificacao { canal, controle: ControleSessao::novo() }
    }

    /// O controle corrente satisfaz o invariante da sessão.
    pub fn controle(&self) -> (controle: ControleSessao)
        ensures
            controle == self@,
            controle.valido(),
    {
        proof {
            use_type_invariant(self);
        }
        self.controle
    }

    pub fn estado(&self) -> (estado: EstadoSessao)
        ensures
            estado == self@.estado,
    {
        self.controle.estado
    }

    pub fn local_confirmed(&self) -> (confirmado: bool)
        ensures
            confirmado == self@.local_confirmed,
    {
        self.controle.local_confirmed
    }

    pub fn peer_confirmed(&self) -> (confirmado: bool)
        ensures
            confirmado == self@.peer_confirmed,
    {
        self.controle.peer_confirmed
    }

    pub fn peer_close_received(&self) -> (recebido: bool)
        ensures
            recebido == self@.peer_close_received,
    {
        self.controle.peer_close_received
    }

    pub fn fingerprint(&self) -> (fingerprint: &str)
        ensures
            fingerprint@ == texto_fingerprint(self.hash_sessao()),
    {
        self.canal.fingerprint()
    }

    /// Cifra um plaintext com o transporte da sessão. Falha de cifra leva a
    /// `FAILED` com categoria `Aead`; o ciphertext tem o plaintext mais 16 bytes.
    pub fn cifrar(&mut self, plaintext: &[u8]) -> (r: Result<Vec<u8>, ErroSessao>)
        ensures
            transicao(old(self)@, final(self)@),
            SessaoVerificacao::envio(old(self), final(self), r, plaintext@, old(self)@),
            plaintext@.len() + TAG_LEN > TRANSPORT_BUFFER_SIZE ==> r.is_err(),
    {
        proof {
            use_type_invariant(&*self);
        }
        let mut ciphertext: Vec<u8> = vec![0u8; TRANSPORT_BUFFER_SIZE];
        match self.canal.cifrar_transporte(plaintext, &mut ciphertext) {
            Ok(tamanho) => {
                let ghost escrito = ciphertext@;
                ciphertext.truncate(tamanho);
                assert(ciphertext@ =~= escrito.subrange(0, tamanho as int));
                Ok(ciphertext)
            },
            Err(_) => {
                self.controle = self.controle.falha();
                Err(ErroSessao::novo(CategoriaErroSessao::Aead, "falha de cifra Noise"))
            },
        }
    }
}

} // verus!

verus! {

/// O resultado é o erro da categoria e mensagem dadas.
pub open spec fn falhou_com<T>(r: Result<T, ErroSessao>, categoria: CategoriaErroSessao, mensagem: Seq<char>) -> bool {
    r matches Err(e) && e.categoria == categoria && e.mensagem@ == mensagem
}

impl SessaoVerificacao {
    /// Nada mudou: nem o controle nem a transcrição.
    pub open spec fn inalterada(antes: &SessaoVerificacao, depois: &SessaoVerificacao) -> bool {
        depois@ == antes@ && SessaoVerificacao::mesma_transcricao(antes, depois)
    }

    /// Efeito de cifrar e enviar `plaintext` e, se a cifra der certo, passar
    /// ao controle `proximo`; se falhar, a sessão vai a `FAILED` (`Aead`).
    pub open spec fn envio(
        antes: &SessaoVerificacao,
        depois: &SessaoVerificacao,
        r: Result<Vec<u8>, ErroSessao>,
        plaintext: Seq<u8>,
        proximo: ControleSessao,
    ) -> bool {
        &&& depois.recebidos() == antes.recebidos()
        &&& depois.frames_recebidos() == antes.frames_recebidos()
        &&& depois.hash_sessao() == antes.hash_sessao()
        &&& depois.protocolo_canal() == antes.protocolo_canal()
        &&& antes.cifra_disponivel() && plaintext.len() + TAG_LEN <= TRANSPORT_BUFFER_SIZE ==> r is Ok
        &&& match r {
            Ok(ciphertext) => {
                &&& ciphertext@.len() == plaintext.len() + TAG_LEN
                &&& depois@ == proximo
                &&& depois.enviados() == antes.enviados().push(plaintext)
                &&& depois.cifrados_enviados() == antes.cifrados_enviados().push(ciphertext@)
                &&& depois.nonce_envio() == antes.nonce_envio() + 1
            },
            Err(e) => {
                &&& e.categoria == CategoriaErroSessao::Aead
                &&& e.mensagem@ == "falha de cifra Noise"@
                &&& depois@ == antes@.falhar()
                &&& SessaoVerificacao::envios_iguais(antes, depois)
            },
        }
    }

    fn exigir_estado(&self, esperado: EstadoSessao) -> (r: Result<(), ErroSessao>)
        ensures
            r is Ok <==> self@.estado == esperado,
            r is Err ==> falhou_com(r, CategoriaErroSessao::Estado, "evento inválido no estado atual"@),
    {
        if self.controle.estado != esperado {
            return Err(ErroSessao::novo(CategoriaErroSessao::Estado, "evento inválido no estado atual"));
        }
        Ok(())
    }

    /// Confirmação local explícita: envia um `VERIFY_CONFIRMED` cifrado e,
    /// se o peer já confirmou, passa a `VERIFIED`.
    pub fn confirmar_localmente(&mut self) -> (r: Result<Vec<u8>, ErroSessao>)
        ensures
            transicao(old(self)@, final(self)@),
            old(self)@.estado != EstadoSessao::Unverified ==> falhou_com(r, CategoriaErroSessao::Estado, "evento inválido no estado atual"@)
                && SessaoVerificacao::inalterada(old(self), final(self)),
            old(self)@.estado == EstadoSessao::Unverified && (old(self)@.local_confirmed || old(self)@.verify_sent)
                ==> falhou_com(r, CategoriaErroSessao::Protocolo, "confirmação local duplicada"@)
                && final(self)@ == old(self)@.falhar() && SessaoVerificacao::mesma_transcricao(old(self), final(self)),
            old(self)@.estado == EstadoSessao::Unverified && !old(self)@.local_confirmed && !old(self)@.verify_sent
                ==> SessaoVerificacao::envio(old(self), final(self), r, seq![VERIFY_CONFIRMED],
                old(self)@.apos_confirmacao_local()),
    {
        proof {
            use_type_invariant(&*self);
        }
        self.exigir_estado(EstadoSessao::Unverified)?;
        if self.controle.local_confirmed || self.controle.verify_sent {
            self.controle = self.controle.falha();
            return Err(ErroSessao::novo(CategoriaErroSessao::Protocolo, "confirmação local duplicada"));
        }
        let plaintext: [u8; 1] = [VERIFY_CONFIRMED];
        assert(plaintext@ =~= seq![VERIFY_CONFIRMED]);
        let ciphertext = self.cifrar(&plaintext)?;
        let confirmado = ControleSessao { local_confirmed: true, verify_sent: true, ..self.controle };
        self.controle = if confirmado.peer_confirmed {
            ControleSessao { estado: EstadoSessao::Verified, ..confirmado }
        } else {
            confirmado
        };
        Ok(ciphertext)
    }

    /// Cifra um `CHAT` de 1 a 4096 bytes UTF-8; só em `VERIFIED`. Conteúdo
    /// vazio ou grande é rejeitado sem cifrar e sem mudar a sessão.
    pub fn enviar_chat(&mut self, conteudo: &str) -> (r: Result<Vec<u8>, ErroSessao>)
        ensures
            transicao(old(self)@, final(self)@),
            old(self)@.estado != EstadoSessao::Verified ==> falhou_com(r, CategoriaErroSessao::Estado, "evento inválido no estado atual"@)
                && SessaoVerificacao::inalterada(old(self), final(self)),
            old(self)@.estado == EstadoSessao::Verified && conteudo.spec_bytes().len() == 0
                ==> falhou_com(r, CategoriaErroSessao::Protocolo, "CHAT vazio"@)
                && SessaoVerificacao::inalterada(old(self), final(self)),
            old(self)@.estado == EstadoSessao::Verified && conteudo.spec_bytes().len() > MAX_CHAT_CONTENT
                ==> falhou_com(r, CategoriaErroSessao::Protocolo, "CHAT excede 4096 bytes"@)
                && SessaoVerificacao::inalterada(old(self), final(self)),
            old(self)@.estado == EstadoSessao::Verified && 1 <= conteudo.spec_bytes().len() <= MAX_CHAT_CONTENT
                ==> SessaoVerificacao::envio(old(self), final(self), r,
                seq![CHAT] + conteudo.spec_bytes(), old(self)@),
    {
        proof {
            use_type_invariant(&*self);
        }
        self.exigir_estado(EstadoSessao::Verified)?;
        let bytes = conteudo.as_bytes();
        let tamanho = bytes.len();
        if tamanho == 0 {
            return Err(ErroSessao::novo(CategoriaErroSessao::Protocolo, "CHAT vazio"));
        }
        if tamanho > MAX_CHAT_CONTENT {
            return Err(ErroSessao::novo(CategoriaErroSessao::Protocolo, "CHAT excede 4096 bytes"));
        }
        let mut plaintext: Vec<u8> = Vec::with_capacity(tamanho + 1);
        plaintext.push(CHAT);
        plaintext.extend_from_slice(bytes);
        assert(plaintext@ =~= seq![CHAT] + conteudo.spec_bytes());
        let resultado = self.cifrar(plaintext.as_slice());
        apagar_bytes(&mut plaintext);
        resultado
    }
}

} // verus!

verus! {

impl SessaoVerificacao {
    /// Efeito de um plaintext `pt`, já autenticado, sobre a sessão: a
    /// transcrição de entrada ganha `pt`; a mensagem é aceita ou rejeitada
    /// conforme `aceita_mensagem`; um `CLOSE` aceito recebe resposta recíproca
    /// com o mesmo motivo se o `CLOSE` local ainda não foi enviado.
    pub open spec fn recepcao(
        antes: &SessaoVerificacao,
        depois: &SessaoVerificacao,
        pt: Seq<u8>,
        r: Result<EventoRemoto, ErroSessao>,
    ) -> bool {
        let c = antes@;
        &&& depois.recebidos() == antes.recebidos().push(pt)
        &&& depois.hash_sessao() == antes.hash_sessao()
        &&& depois.protocolo_canal() == antes.protocolo_canal()
        &&& if !aceita_mensagem(c, pt) {
            &&& falhou_com(r, CategoriaErroSessao::Protocolo, mensagem_rejeicao(c, pt))
            &&& depois@ == c.falhar()
            &&& SessaoVerificacao::envios_iguais(antes, depois)
        } else if e_confirmacao(pt) {
            &&& (r matches Ok(EventoRemoto::VerifyConfirmed))
            &&& depois@ == controle_apos_mensagem(c, pt)
            &&& SessaoVerificacao::envios_iguais(antes, depois)
        } else if e_chat(pt) {
            &&& (r matches Ok(EventoRemoto::Chat(texto)) && texto@ == decode_utf8(pt.drop_first()))
            &&& depois@ == c
            &&& SessaoVerificacao::envios_iguais(antes, depois)
        } else if c.close_sent {
            &&& (r matches Ok(EventoRemoto::Close { motivo, resposta: None })
                && Some(motivo) == motivo_do_byte(pt[1]))
            &&& depois@ == controle_apos_mensagem(c, pt)
            &&& SessaoVerificacao::envios_iguais(antes, depois)
        } else {
            &&& antes.cifra_disponivel() ==> r is Ok
            &&& {
                ||| {
                    &&& (r matches Ok(EventoRemoto::Close { motivo, resposta: Some(resposta) })
                        && Some(motivo) == motivo_do_byte(pt[1]) && resposta@.len() == 2 + TAG_LEN
                        && depois.cifrados_enviados() == antes.cifrados_enviados().push(resposta@))
                    &&& depois@ == controle_apos_mensagem(c, pt)
                    &&& depois.enviados() == antes.enviados().push(seq![CLOSE, pt[1]])
                    &&& depois.nonce_envio() == antes.nonce_envio() + 1
                }
                ||| {
                    &&& falhou_com(r, CategoriaErroSessao::Aead, "falha de cifra Noise"@)
                    &&& depois@ == ControleSessao { peer_close_received: true, ..c }.falhar()
                    &&& SessaoVerificacao::envios_iguais(antes, depois)
                }
            }
        }
    }

    /// Decifra um frame de transporte e processa a mensagem de aplicação.
    /// Sessão terminal rejeita sem decifrar; falha de autenticação leva a
    /// `FAILED` sem entregar nada; plaintext autenticado segue `recepcao`.
    pub fn processar_ciphertext(&mut self, ciphertext: &[u8]) -> (r: Result<EventoRemoto, ErroSessao>)
        ensures
            transicao(old(self)@, final(self)@),
            old(self)@.terminal() ==> falhou_com(r, CategoriaErroSessao::Estado, "sessão já está em estado terminal"@)
                && SessaoVerificacao::inalterada(old(self), final(self)),
            !old(self)@.terminal() ==> final(self).frames_recebidos() == old(self).frames_recebidos().push(
                ciphertext@),
            !old(self)@.terminal() ==> {
                ||| {
                    &&& falhou_com(r, CategoriaErroSessao::Aead, "falha de autenticação Noise"@)
                    &&& final(self)@ == old(self)@.falhar()
                    &&& SessaoVerificacao::mesma_transcricao_exceto_entrada(old(self), final(self))
                }
                ||| {
                    &&& final(self).recebidos().len() > 0
                    &&& final(self).recebidos().last().len() + TAG_LEN == ciphertext@.len()
                    &&& SessaoVerificacao::recepcao(old(self), final(self), final(self).recebidos().last(), r)
                }
            },
            !old(self)@.terminal() && (ciphertext@.len() < TAG_LEN || ciphertext@.len() > 65535
                || ciphertext@.len() - TAG_LEN > TRANSPORT_BUFFER_SIZE) ==> falhou_com(r,
                CategoriaErroSessao::Aead, "falha de autenticação Noise"@) && final(self)@ == old(self)@.falhar()
                && SessaoVerificacao::mesma_transcricao_exceto_entrada(old(self), final(self)),
    {
        proof {
            use_type_invariant(&*self);
        }
        let c = self.controle;
        if c.estado == EstadoSessao::Closed || c.estado == EstadoSessao::Failed {
            return Err(ErroSessao::novo(CategoriaErroSessao::Estado, "sessão já está em estado terminal"));
        }
        let mut plaintext: Vec<u8> = vec![0u8; TRANSPORT_BUFFER_SIZE];
        let tamanho = match self.canal.decifrar_transporte(ciphertext, &mut plaintext) {
            Ok(n) => n,
            Err(_) => {
                self.controle = c.falha();
                return Err(ErroSessao::novo(CategoriaErroSessao::Aead, "falha de autenticação Noise"));
            },
        };
        let ghost decifrado = plaintext@;
        plaintext.truncate(tamanho);
        assert(plaintext@ =~= decifrado.subrange(0, tamanho as int));
        let interpretacao = c.interpretar(plaintext.as_slice());
        proof {
            lei_mensagem_preserva_invariante(c, plaintext@);
        }
        let resultado = match interpretacao.resultado {
            Err(e) => {
                self.controle = interpretacao.proximo;
                Err(e)
            },
            Ok(MensagemAplicacao::VerifyConfirmed) => {
                self.controle = interpretacao.proximo;
                Ok(EventoRemoto::VerifyConfirmed)
            },
            Ok(MensagemAplicacao::Chat(texto)) => {
                self.controle = interpretacao.proximo;
                Ok(EventoRemoto::Chat(texto))
            },
            Ok(MensagemAplicacao::Close(motivo)) => {
                if c.close_sent {
                    self.controle = interpretacao.proximo;
                    Ok(EventoRemoto::Close { motivo, resposta: None })
                } else {
                    let resposta: [u8; 2] = [CLOSE, motivo.byte()];
                    assert(resposta@ =~= seq![CLOSE, plaintext@[1]]);
                    match self.cifrar(&resposta) {
                        Ok(cifrada) => {
                            self.controle = interpretacao.proximo;
                            Ok(EventoRemoto::Close { motivo, resposta: Some(cifrada) })
                        },
                        Err(e) => {
                            self.controle = ControleSessao {
                                estado: EstadoSessao::Failed,
                                peer_close_received: true,
                                ..c
                            };
                            Err(e)
                        },
                    }
                }
            },
        };
        apagar_bytes(&mut plaintext);
        resultado
    }
}

/// Todo plaintext autenticado, aceito ou rejeitado, preserva o invariante
/// do controle.
pub proof fn lei_mensagem_preserva_invariante(c: ControleSessao, pt: Seq<u8>)
    requires
        c.valido(),
    ensures
        controle_apos_mensagem(c, pt).valido(),
{
}

} // verus!

verus! {

impl SessaoVerificacao {
    /// `CLOSE` iniciado localmente em `UNVERIFIED` ou `VERIFIED`: envia o
    /// motivo e entra em `CLOSING`.
    pub fn iniciar_close(&mut self, motivo: MotivoClose) -> (r: Result<Vec<u8>, ErroSessao>)
        ensures
            transicao(old(self)@, final(self)@),
            !(old(self)@.estado == EstadoSessao::Unverified || old(self)@.estado == EstadoSessao::Verified)
                ==> falhou_com(r, CategoriaErroSessao::Estado, "CLOSE local inválido no estado atual"@)
                && SessaoVerificacao::inalterada(old(self), final(self)),
            (old(self)@.estado == EstadoSessao::Unverified || old(self)@.estado == EstadoSessao::Verified)
                ==> SessaoVerificacao::envio(old(self), final(self), r,
                seq![CLOSE, byte_do_motivo(motivo)], old(self)@.apos_close_local()),
    {
        proof {
            use_type_invariant(&*self);
        }
        if !(self.controle.estado == EstadoSessao::Unverified || self.controle.estado
            == EstadoSessao::Verified) {
            return Err(ErroSessao::novo(CategoriaErroSessao::Estado, "CLOSE local inválido no estado atual"));
        }
        if self.controle.close_sent {
            self.controle = self.controle.falha();
            return Err(ErroSessao::novo(CategoriaErroSessao::Protocolo, "CLOSE local duplicado"));
        }
        let plaintext: [u8; 2] = [CLOSE, motivo.byte()];
        assert(plaintext@ =~= seq![CLOSE, byte_do_motivo(motivo)]);
        let ciphertext = self.cifrar(&plaintext)?;
        self.controle = ControleSessao { estado: EstadoSessao::Closing, close_sent: true, ..self.controle };
        Ok(ciphertext)
    }

    /// Envia `CLOSE(VERIFICATION_ABORTED)` a partir de `UNVERIFIED` e termina
    /// no estado `destino`.
    fn abortar_verificacao(&mut self, destino: EstadoSessao) -> (r: Result<Vec<u8>, ErroSessao>)
        requires
            destino == EstadoSessao::Closed || destino == EstadoSessao::Failed,
        ensures
            old(self)@.estado != EstadoSessao::Unverified ==> falhou_com(r, CategoriaErroSessao::Estado, "evento inválido no estado atual"@)
                && SessaoVerificacao::inalterada(old(self), final(self)),
            old(self)@.estado == EstadoSessao::Unverified ==> SessaoVerificacao::envio(old(self), final(self), r,
                seq![CLOSE, byte_do_motivo(MotivoClose::VerificationAborted)],
                old(self)@.apos_aborto(destino)),
    {
        proof {
            use_type_invariant(&*self);
        }
        self.exigir_estado(EstadoSessao::Unverified)?;
        let plaintext: [u8; 2] = [CLOSE, MotivoClose::VerificationAborted.byte()];
        assert(plaintext@ =~= seq![CLOSE, byte_do_motivo(MotivoClose::VerificationAborted)]);
        let ciphertext = self.cifrar(&plaintext)?;
        self.controle = ControleSessao { estado: destino, close_sent: true, ..self.controle };
        Ok(ciphertext)
    }

    /// Fingerprints divergentes: `CLOSE(VERIFICATION_ABORTED)` e `FAILED`.
    pub fn divergencia_local(&mut self) -> (r: Result<Vec<u8>, ErroSessao>)
        ensures
            transicao(old(self)@, final(self)@),
            old(self)@.estado != EstadoSessao::Unverified ==> falhou_com(r, CategoriaErroSessao::Estado, "evento inválido no estado atual"@)
                && SessaoVerificacao::inalterada(old(self), final(self)),
            old(self)@.estado == EstadoSessao::Unverified ==> SessaoVerificacao::envio(old(self), final(self), r,
                seq![CLOSE, byte_do_motivo(MotivoClose::VerificationAborted)],
                old(self)@.apos_aborto(EstadoSessao::Failed)),
    {
        self.abortar_verificacao(EstadoSessao::Failed)
    }

    /// Cancelamento ou recusa local: `CLOSE(VERIFICATION_ABORTED)` e `CLOSED`.
    pub fn cancelamento_local(&mut self) -> (r: Result<Vec<u8>, ErroSessao>)
        ensures
            transicao(old(self)@, final(self)@),
            old(self)@.estado != EstadoSessao::Unverified ==> falhou_com(r, CategoriaErroSessao::Estado, "evento inválido no estado atual"@)
                && SessaoVerificacao::inalterada(old(self), final(self)),
            old(self)@.estado == EstadoSessao::Unverified ==> SessaoVerificacao::envio(old(self), final(self), r,
                seq![CLOSE, byte_do_motivo(MotivoClose::VerificationAborted)],
                old(self)@.apos_aborto(EstadoSessao::Closed)),
    {
        self.abortar_verificacao(EstadoSessao::Closed)
    }

    /// Prazo de verificação esgotado: `CLOSE(VERIFICATION_ABORTED)` e `CLOSED`.
    pub fn timeout_verificacao(&mut self) -> (r: Result<Vec<u8>, ErroSessao>)
        ensures
            transicao(old(self)@, final(self)@),
            old(self)@.estado != EstadoSessao::Unverified ==> falhou_com(r, CategoriaErroSessao::Estado, "evento inválido no estado atual"@)
                && SessaoVerificacao::inalterada(old(self), final(self)),
            old(self)@.estado == EstadoSessao::Unverified ==> SessaoVerificacao::envio(old(self), final(self), r,
                seq![CLOSE, byte_do_motivo(MotivoClose::VerificationAborted)],
                old(self)@.apos_aborto(EstadoSessao::Closed)),
    {
        self.abortar_verificacao(EstadoSessao::Closed)
    }

    /// Limite ocioso em `VERIFIED`: `CLOSE(IDLE_TIMEOUT)` e `CLOSING`.
    pub fn timeout_idle(&mut self) -> (r: Result<Vec<u8>, ErroSessao>)
        ensures
            transicao(old(self)@, final(self)@),
            old(self)@.estado != EstadoSessao::Verified ==> falhou_com(r, CategoriaErroSessao::Estado, "evento inválido no estado atual"@)
                && SessaoVerificacao::inalterada(old(self), final(self)),
            old(self)@.estado == EstadoSessao::Verified ==> SessaoVerificacao::envio(old(self), final(self), r,
                seq![CLOSE, byte_do_motivo(MotivoClose::IdleTimeout)], old(self)@.apos_close_local()),
    {
        self.exigir_estado(EstadoSessao::Verified)?;
        self.iniciar_close(MotivoClose::IdleTimeout)
    }

    /// Depois de um `CLOSE` remoto autenticado, a sessão em `CLOSING` vai a
    /// `CLOSED`; uma sessão terminal continua como está.
    pub fn concluir_close_recebido(&mut self)
        ensures
            transicao(old(self)@, final(self)@),
            final(self)@ == old(self)@.apos_concluir_close(),
            SessaoVerificacao::mesma_transcricao(old(self), final(self)),
    {
        proof {
            use_type_invariant(&*self);
        }
        if self.controle.peer_close_received && self.controle.estado == EstadoSessao::Closing {
            self.controle = ControleSessao { estado: EstadoSessao::Closed, ..self.controle };
        }
    }

    /// Resposta a `CLOSE` não chegou no prazo: `CLOSING` vai a `CLOSED`.
    pub fn timeout_close(&mut self)
        ensures
            transicao(old(self)@, final(self)@),
            final(self)@ == old(self)@.apos_timeout_close(),
            SessaoVerificacao::mesma_transcricao(old(self), final(self)),
    {
        proof {
            use_type_invariant(&*self);
        }
        if self.controle.estado == EstadoSessao::Closing {
            self.controle = ControleSessao { estado: EstadoSessao::Closed, ..self.controle };
        }
    }

    /// EOF, reset ou frame parcial: interrupção comum, não close autenticado.
    pub fn registrar_interrupcao(&mut self)
        ensures
            transicao(old(self)@, final(self)@),
            final(self)@ == old(self)@.apos_interrupcao(),
            SessaoVerificacao::mesma_transcricao(old(self), final(self)),
    {
        proof {
            use_type_invariant(&*self);
        }
        if !(self.controle.estado == EstadoSessao::Closed || self.controle.estado == EstadoSessao::Failed) {
            self.controle = ControleSessao { estado: EstadoSessao::Closed, ..self.controle };
        }
    }

    /// Violação de protocolo observada fora da sessão (frame inválido).
    pub fn registrar_falha_protocolo(&mut self)
        ensures
            transicao(old(self)@, final(self)@),
            final(self)@ == old(self)@.apos_falha_protocolo(),
            SessaoVerificacao::mesma_transcricao(old(self), final(self)),
    {
        proof {
            use_type_invariant(&*self);
        }
        if !(self.controle.estado == EstadoSessao::Closed || self.controle.estado == EstadoSessao::Failed) {
            self.controle = self.controle.falha();
        }
    }
}

} // verus!

verus! {

/// Toda transição da sessão preserva o invariante do controle: a sessão
/// inicial é válida e cada operação leva um controle válido a outro válido.
pub proof fn lei_transicoes_preservam_invariante(c: ControleSessao, pt: Seq<u8>, destino: EstadoSessao)
    requires
        c.valido(),
        destino == EstadoSessao::Closed || destino == EstadoSessao::Failed,
    ensures
        ControleSessao::inicial().valido(),
        c.falhar().valido(),
        c.estado == EstadoSessao::Unverified && !c.local_confirmed ==> c.apos_confirmacao_local().valido(),
        c.estado == EstadoSessao::Unverified || c.estado == EstadoSessao::Verified
            ==> c.apos_close_local().valido(),
        c.estado == EstadoSessao::Unverified ==> c.apos_aborto(destino).valido(),
        c.apos_concluir_close().valido(),
        c.apos_timeout_close().valido(),
        c.apos_interrupcao().valido(),
        c.apos_falha_protocolo().valido(),
        controle_apos_mensagem(c, pt).valido(),
        (ControleSessao { peer_close_received: true, ..c }).falhar().valido(),
{
}

/// `VERIFIED` só existe com as duas confirmações: a local e a do peer.
/// Em particular, só se aceita `CHAT` recebido com ambas.
pub proof fn lei_verified_exige_ambas_confirmacoes(c: ControleSessao, pt: Seq<u8>)
    requires
        c.valido(),
    ensures
        c.estado == EstadoSessao::Verified ==> c.local_confirmed && c.peer_confirmed,
        e_chat(pt) && aceita_mensagem(c, pt) ==> c.estado == EstadoSessao::Verified
            && c.local_confirmed && c.peer_confirmed,
{
}

/// A confirmação do peer não substitui a local: sem confirmação local a
/// sessão não chega a `VERIFIED`.
pub proof fn lei_confirmacao_remota_nao_substitui_local(c: ControleSessao)
    requires
        c.valido(),
        !c.local_confirmed,
    ensures
        controle_apos_mensagem(c, seq![VERIFY_CONFIRMED]).estado != EstadoSessao::Verified,
        controle_apos_mensagem(c, seq![VERIFY_CONFIRMED]).local_confirmed == false,
{
}

/// A ordem das confirmações é livre: local depois remota e remota depois
/// local levam ao mesmo controle, em `VERIFIED`.
pub proof fn lei_ordem_das_confirmacoes_e_livre()
    ensures
        controle_apos_mensagem(ControleSessao::inicial().apos_confirmacao_local(), seq![VERIFY_CONFIRMED])
            == controle_apos_mensagem(ControleSessao::inicial(), seq![VERIFY_CONFIRMED]).apos_confirmacao_local(),
        controle_apos_mensagem(ControleSessao::inicial().apos_confirmacao_local(), seq![VERIFY_CONFIRMED]).estado
            == EstadoSessao::Verified,
{
    let pt = seq![VERIFY_CONFIRMED];
    assert(e_confirmacao(pt));
}

/// `CLOSED` e `FAILED` são terminais: nenhuma operação volta a um estado não
/// terminal, e nenhum plaintext é aceito numa sessão terminal.
pub proof fn lei_estados_terminais(c: ControleSessao, pt: Seq<u8>)
    requires
        c.terminal(),
    ensures
        c.apos_concluir_close() == c,
        c.apos_timeout_close() == c,
        c.apos_interrupcao() == c,
        c.apos_falha_protocolo() == c,
        !aceita_mensagem(c, pt),
        controle_apos_mensagem(c, pt).estado == EstadoSessao::Failed,
{
}

/// Um `CLOSE` remoto aceito leva a `CLOSING` com o `CLOSE` local enviado, e
/// um segundo `CLOSE` remoto é sempre rejeitado.
pub proof fn lei_close_remoto_unico(c: ControleSessao, pt: Seq<u8>, pt2: Seq<u8>)
    requires
        e_close(pt),
        aceita_mensagem(c, pt),
        e_close(pt2),
    ensures
        controle_apos_mensagem(c, pt).estado == EstadoSessao::Closing,
        controle_apos_mensagem(c, pt).close_sent,
        controle_apos_mensagem(c, pt).peer_close_received,
        !aceita_mensagem(controle_apos_mensagem(c, pt), pt2),
{
}

/// As mudanças de controle que as operações da sessão podem fazer: cada
/// método de `SessaoVerificacao` que recebe `&mut self` leva o controle
/// `c` a um `d` desta lista.
pub open spec fn transicao(c: ControleSessao, d: ControleSessao) -> bool {
    ||| d == c
    ||| d == c.falhar()
    ||| c.estado == EstadoSessao::Unverified && !c.local_confirmed && d == c.apos_confirmacao_local()
    ||| (c.estado == EstadoSessao::Unverified || c.estado == EstadoSessao::Verified) && d == c.apos_close_local()
    ||| c.estado == EstadoSessao::Unverified && (d == c.apos_aborto(EstadoSessao::Closed) || d == c.apos_aborto(
        EstadoSessao::Failed))
    ||| d == c.apos_concluir_close()
    ||| d == c.apos_timeout_close()
    ||| d == c.apos_interrupcao()
    ||| d == c.apos_falha_protocolo()
    ||| exists|pt: Seq<u8>| d == #[trigger] controle_apos_mensagem(c, pt)
    ||| d == (ControleSessao { peer_close_received: true, ..c }).falhar()
}

/// Estados em que a verificação ainda está aberta ou concluída.
pub open spec fn em_andamento(c: ControleSessao) -> bool {
    c.estado == EstadoSessao::Unverified || c.estado == EstadoSessao::Verified
}

/// Cada transição preserva o invariante; `VERIFIED` só é alcançado a partir
/// de `UNVERIFIED` e só com as duas confirmações; quem saiu de `UNVERIFIED`
/// e `VERIFIED` não volta a eles; e `CLOSED` e `FAILED` são terminais.
pub proof fn lei_transicao(c: ControleSessao, d: ControleSessao)
    requires
        c.valido(),
        transicao(c, d),
    ensures
        d.valido(),
        d.estado == EstadoSessao::Verified ==> d.local_confirmed && d.peer_confirmed,
        d.estado == EstadoSessao::Verified && c.estado != EstadoSessao::Verified ==> c.estado
            == EstadoSessao::Unverified,
        !em_andamento(c) ==> !em_andamento(d),
        c.terminal() ==> d.terminal(),
{
    if exists|pt: Seq<u8>| d == #[trigger] controle_apos_mensagem(c, pt) {
        let pt = choose|pt: Seq<u8>| d == #[trigger] controle_apos_mensagem(c, pt);
        lei_mensagem_preserva_invariante(c, pt);
    }
}

/// Ao longo de qualquer sequência de transições a partir de um controle
/// válido (por exemplo, o inicial): o invariante vale em todo passo, quem
/// saiu de `UNVERIFIED` e `VERIFIED` não volta a eles, e um estado terminal
/// permanece terminal.
pub proof fn lei_sequencia_de_transicoes(cs: Seq<ControleSessao>, i: int, j: int)
    requires
        cs.len() > 0,
        cs[0].valido(),
        forall|k: int| 0 <= k < cs.len() - 1 ==> transicao(#[trigger] cs[k], cs[k + 1]),
        0 <= i <= j < cs.len(),
    ensures
        cs[j].valido(),
        cs[j].estado == EstadoSessao::Verified ==> cs[j].local_confirmed && cs[j].peer_confirmed,
        !em_andamento(cs[i]) ==> !em_andamento(cs[j]),
        cs[i].terminal() ==> cs[j].terminal(),
    decreases j,
{
    if j > 0 {
        let a = if i < j { i } else { j - 1 };
        lei_sequencia_de_transicoes(cs, a, j - 1);
        assert(transicao(cs[j - 1], cs[j]));
        lei_transicao(cs[j - 1], cs[j]);
    }
}

/// O que cada plaintext autenticado exige para ser aceito: `[0x01]`
/// (`VERIFY_CONFIRMED`) só em `UNVERIFIED` antes da confirmação do peer;
/// `0x02` seguido de 1 a 4096 bytes UTF-8 (`CHAT`) só em `VERIFIED`;
/// `[0x03, r]` (`CLOSE`) com `r` de 0 a 2 em `UNVERIFIED`, `VERIFIED` ou
/// `CLOSING` antes de um `CLOSE` remoto. Qualquer outro formato é rejeitado, e
/// a rejeição leva a `FAILED`.
pub proof fn lei_formatos_aceitos(c: ControleSessao, pt: Seq<u8>)
    ensures
        pt =~= seq![0x01u8] ==> (aceita_mensagem(c, pt) <==> c.estado == EstadoSessao::Unverified
            && !c.peer_confirmed),
        pt.len() >= 2 && pt[0] == 0x02 && pt.len() <= 4097 && valid_utf8(pt.drop_first()) ==> (aceita_mensagem(
            c,
            pt,
        ) <==> c.estado == EstadoSessao::Verified),
        pt.len() == 2 && pt[0] == 0x03 && pt[1] <= 2 ==> (aceita_mensagem(c, pt) <==> (c.estado
            == EstadoSessao::Unverified || c.estado == EstadoSessao::Verified || c.estado
            == EstadoSessao::Closing) && !c.peer_close_received),
        pt.len() == 0 || pt[0] == 0x00 || pt[0] > 0x03 ==> !aceita_mensagem(c, pt),
        pt.len() > 0 && pt[0] == 0x01 && pt.len() != 1 ==> !aceita_mensagem(c, pt),
        pt.len() > 0 && pt[0] == 0x02 && (pt.len() == 1 || pt.len() > 4097) ==> !aceita_mensagem(c, pt),
        pt.len() > 0 && pt[0] == 0x03 && (pt.len() != 2 || pt[1] > 2) ==> !aceita_mensagem(c, pt),
        !aceita_mensagem(c, pt) ==> controle_apos_mensagem(c, pt).estado == EstadoSessao::Failed,
{
    if pt =~= seq![0x01u8] {
        assert(e_confirmacao(pt));
    }
}

/// Os valores fixos do protocolo: tipos de mensagem 0x01, 0x02 e 0x03;
/// conteúdo de chat de até 4096 bytes; corpo de frame de até 8192 bytes;
/// tag AEAD de 16 bytes; e os prazos de 5 minutos para a verificação,
/// 15 minutos de ociosidade, 5 segundos pela resposta a `CLOSE`, 15 segundos
/// para o handshake e 15 segundos de progresso de um frame.
pub proof fn lei_constantes_do_protocolo()
    ensures
        VERIFY_CONFIRMED == 0x01u8 && CHAT == 0x02u8 && CLOSE == 0x03u8,
        MAX_CHAT_CONTENT == 4096usize,
        crate::framing::MAX_FRAME_BODY == 8192usize,
        TAG_LEN == 16usize,
        VERIFICATION_TIMEOUT_MS == 5 * 60 * 1000,
        VERIFIED_IDLE_TIMEOUT_MS == 15 * 60 * 1000,
        CLOSE_RESPONSE_TIMEOUT_MS == 5 * 1000,
        crate::tcp_handshake::HANDSHAKE_TIMEOUT_MS == 15 * 1000,
        crate::framing::FRAME_PROGRESS_TIMEOUT_MS == 15 * 1000,
{
}

/// Um `CLOSE` autenticado com motivo conhecido é aceito em `UNVERIFIED`,
/// `VERIFIED` e `CLOSING` enquanto nenhum `CLOSE` remoto chegou, sejam quais
/// forem as confirmações local e remota; a sessão passa a `CLOSING`, com o
/// `CLOSE` remoto registrado, o local marcado como enviado e as confirmações
/// inalteradas.
pub proof fn lei_close_aceito_em_qualquer_confirmacao(c: ControleSessao, b: u8)
    requires
        c.estado == EstadoSessao::Unverified || c.estado == EstadoSessao::Verified || c.estado
            == EstadoSessao::Closing,
        !c.peer_close_received,
        b <= 2,
    ensures
        aceita_mensagem(c, seq![CLOSE, b]),
        controle_apos_mensagem(c, seq![CLOSE, b]).estado == EstadoSessao::Closing,
        controle_apos_mensagem(c, seq![CLOSE, b]).peer_close_received,
        controle_apos_mensagem(c, seq![CLOSE, b]).close_sent,
        controle_apos_mensagem(c, seq![CLOSE, b]).local_confirmed == c.local_confirmed,
        controle_apos_mensagem(c, seq![CLOSE, b]).peer_confirmed == c.peer_confirmed,
{
    let pt = seq![CLOSE, b];
    assert(e_close(pt) && !e_confirmacao(pt));
}

/// Em `CLOSING` só `CLOSE` é aceito: `CHAT` e `VERIFY_CONFIRMED` falham.
pub proof fn lei_closing_so_aceita_close(c: ControleSessao, pt: Seq<u8>)
    requires
        c.estado == EstadoSessao::Closing,
        aceita_mensagem(c, pt),
    ensures
        e_close(pt),
{
}

} // verus!

verus! {

/// A linha sem o `\n` final e, depois dele, sem um `\r` final.
pub open spec fn sem_terminador(s: Seq<char>) -> Seq<char> {
    if s.len() > 0 && s.last() == '\n' {
        let t = s.drop_last();
        if t.len() > 0 && t.last() == '\r' {
            t.drop_last()
        } else {
            t
        }
    } else {
        s
    }
}

/// Remove o terminador de linha lido do terminal (`\n` ou `\r\n`); nada
/// mais é aparado, para que `/sair` exija correspondência exata.
pub fn remover_terminador_linha(entrada: &mut String)
    ensures
        final(entrada)@ == sem_terminador(old(entrada)@),
{
    let n = entrada.as_str().unicode_len();
    if n > 0 && entrada.as_str().get_char(n - 1) == '\n' {
        let sem_lf = if n > 1 && entrada.as_str().get_char(n - 2) == '\r' {
            String::from_str(entrada.as_str().substring_char(0, n - 2))
        } else {
            String::from_str(entrada.as_str().substring_char(0, n - 1))
        };
        assert(sem_lf@ =~= sem_terminador(old(entrada)@));
        *entrada = sem_lf;
    }
}

} // verus!

verus! {

/// Desfecho de uma sessão interativa.
#[derive(Clone, Copy, Debug, PartialEq, Eq, Structural)]
pub enum ResultadoInterativo {
    VerifiedAndClosed,
    AuthenticatedClose,
    LocalCancellation,
    FingerprintMismatch,
    VerificationTimeout,
    CloseTimeout,
    NetworkInterruption,
    ProtocolFailure,
    AeadFailure,
}

/// Escolha explícita do usuário depois de comparar o fingerprint.
#[derive(Clone, Copy, Debug, PartialEq, Eq, Structural)]
pub enum DecisaoUsuario {
    Confirma,
    Diverge,
    Cancela,
}

/// Resposta à pergunta de verificação, já sem espaços nas pontas: `s`,
/// `n` ou `c`, sem distinção de caixa ASCII.
pub open spec fn decisao_da_resposta(t: Seq<char>) -> Option<DecisaoUsuario> {
    if t == "s"@ || t == "S"@ {
        Some(DecisaoUsuario::Confirma)
    } else if t == "n"@ || t == "N"@ {
        Some(DecisaoUsuario::Diverge)
    } else if t == "c"@ || t == "C"@ {
        Some(DecisaoUsuario::Cancela)
    } else {
        None
    }
}

/// Espaço em branco segundo `char::is_whitespace`: os pontos de código da
/// propriedade Unicode `White_Space`.
pub open spec fn espaco_branco(c: char) -> bool {
    ||| '\u{9}' <= c <= '\u{d}'
    ||| c == ' '
    ||| c == '\u{85}'
    ||| c == '\u{a0}'
    ||| c == '\u{1680}'
    ||| '\u{2000}' <= c <= '\u{200a}'
    ||| c == '\u{2028}'
    ||| c == '\u{2029}'
    ||| c == '\u{202f}'
    ||| c == '\u{205f}'
    ||| c == '\u{3000}'
}

/// Texto sem os espaços em branco iniciais.
pub open spec fn sem_espacos_iniciais(s: Seq<char>) -> Seq<char>
    decreases s.len(),
{
    if s.len() > 0 && espaco_branco(s[0]) {
        sem_espacos_iniciais(s.drop_first())
    } else {
        s
    }
}

/// Texto sem os espaços em branco finais.
pub open spec fn sem_espacos_finais(s: Seq<char>) -> Seq<char>
    decreases s.len(),
{
    if s.len() > 0 && espaco_branco(s.last()) {
        sem_espacos_finais(s.drop_last())
    } else {
        s
    }
}

/// Texto sem os espaços em branco das duas pontas.
pub open spec fn texto_aparado(valor: Seq<char>) -> Seq<char> {
    sem_espacos_finais(sem_espacos_iniciais(valor))
}

/// `str::trim`: o texto sem os espaços em branco (`char::is_whitespace`)
/// iniciais e finais.
#[verifier::external_body]
fn aparar(valor: &str) -> (aparado: &str)
    ensures
        aparado@ == texto_aparado(valor@),
{
    valor.trim()
}

/// Interpreta uma linha digitada em resposta ao fingerprint; `None` pede
/// nova escolha.
pub fn interpretar_escolha(entrada: &str) -> (decisao: Option<DecisaoUsuario>)
    ensures
        decisao == decisao_da_resposta(texto_aparado(entrada@)),
{
    let t = aparar(entrada);
    if textos_iguais(t, "s") || textos_iguais(t, "S") {
        Some(DecisaoUsuario::Confirma)
    } else if textos_iguais(t, "n") || textos_iguais(t, "N") {
        Some(DecisaoUsuario::Diverge)
    } else if textos_iguais(t, "c") || textos_iguais(t, "C") {
        Some(DecisaoUsuario::Cancela)
    } else {
        None
    }
}

/// Letra ASCII maiúscula trocada pela minúscula; os demais caracteres
/// ficam como estão.
pub open spec fn minuscula_ascii(c: char) -> char {
    if 'A' <= c <= 'Z' {
        ((c as u32) + 32) as char
    } else {
        c
    }
}

/// O texto com cada letra ASCII em minúscula.
pub open spec fn minusculas_ascii(t: Seq<char>) -> Seq<char> {
    t.map_values(|c: char| minuscula_ascii(c))
}

proof fn lema_minuscula_de_letra(c: char, l: char)
    requires
        'a' <= l <= 'z',
    ensures
        minuscula_ascii(c) == l <==> (c == l || c as u32 == l as u32 - 32),
{
}

proof fn lema_resposta_de_uma_letra(t: Seq<char>, l: char, maiuscula: char)
    requires
        'a' <= l <= 'z',
        maiuscula as u32 == l as u32 - 32,
    ensures
        minusculas_ascii(t) == seq![l] <==> (t == seq![l] || t == seq![maiuscula]),
{
    lema_minuscula_de_letra(maiuscula, l);
    assert(minusculas_ascii(t).len() == t.len());
    if minusculas_ascii(t) == seq![l] {
        assert(t.len() == 1);
        assert(minuscula_ascii(t[0]) == minusculas_ascii(t)[0]);
        lema_minuscula_de_letra(t[0], l);
        if t[0] == l {
            assert(t =~= seq![l]);
        } else {
            assert(t[0] as u32 == maiuscula as u32);
            assert(t[0] == maiuscula);
            assert(t =~= seq![maiuscula]);
        }
    }
    if t == seq![l] || t == seq![maiuscula] {
        assert(minusculas_ascii(t) =~= seq![l]);
    }
}

/// A resposta ao fingerprint não distingue maiúsculas de minúsculas ASCII:
/// o texto em minúsculas igual a `s` confirma, a `n` diverge e a `c` cancela,
/// e qualquer outro texto pede nova escolha.
pub proof fn lei_escolha_sem_distincao_de_caixa(t: Seq<char>)
    ensures
        minusculas_ascii(t) == "s"@ <==> decisao_da_resposta(t) == Some(DecisaoUsuario::Confirma),
        minusculas_ascii(t) == "n"@ <==> decisao_da_resposta(t) == Some(DecisaoUsuario::Diverge),
        minusculas_ascii(t) == "c"@ <==> decisao_da_resposta(t) == Some(DecisaoUsuario::Cancela),
        decisao_da_resposta(t) == decisao_da_resposta(minusculas_ascii(t)),
{
    reveal_strlit("s");
    reveal_strlit("S");
    reveal_strlit("n");
    reveal_strlit("N");
    reveal_strlit("c");
    reveal_strlit("C");
    assert("s"@ =~= seq!['s'] && "S"@ =~= seq!['S']);
    assert("n"@ =~= seq!['n'] && "N"@ =~= seq!['N']);
    assert("c"@ =~= seq!['c'] && "C"@ =~= seq!['C']);
    if t.len() == 1 {
        assert(t == seq![t[0]]);
    }
    lema_resposta_de_uma_letra(t, 's', 'S');
    lema_resposta_de_uma_letra(t, 'n', 'N');
    lema_resposta_de_uma_letra(t, 'c', 'C');
    let m = minusculas_ascii(t);
    lema_resposta_de_uma_letra(m, 's', 'S');
    lema_resposta_de_uma_letra(m, 'n', 'N');
    lema_resposta_de_uma_letra(m, 'c', 'C');
    assert forall|i: int| 0 <= i < m.len() implies minuscula_ascii(m[i]) == m[i] by {
        assert(m[i] == minuscula_ascii(t[i]));
    }
    assert(minusculas_ascii(m) =~= m);
}

/// Decisão a partir de uma leitura do terminal na fase de verificação: fim
/// da entrada ou erro de leitura (`fim`) cancela; senão a linha é
/// interpretada e `None` pede nova escolha.
pub fn escolha_lida(fim: bool, entrada: &str) -> (decisao: Option<DecisaoUsuario>)
    ensures
        fim ==> decisao == Some(DecisaoUsuario::Cancela),
        !fim ==> decisao == decisao_da_resposta(texto_aparado(entrada@)),
{
    if fim {
        Some(DecisaoUsuario::Cancela)
    } else {
        interpretar_escolha(entrada)
    }
}

/// O que fazer com uma leitura do terminal na fase de chat.
#[derive(Clone, Copy, Debug, PartialEq, Eq, Structural)]
pub enum ComandoChat {
    /// Encerrar localmente (`/sair`, fim da entrada ou erro de leitura).
    Encerrar,
    /// Enviar a linha, já sem o terminador.
    Enviar,
}

/// Classifica uma leitura do terminal na fase de chat: fim da entrada ou
/// erro de leitura (`fim`) encerra; senão o terminador de linha é removido
/// e a linha exatamente igual a `/sair` encerra; qualquer outra é enviada.
pub fn classificar_linha_chat(fim: bool, entrada: &mut String) -> (comando: ComandoChat)
    ensures
        fim ==> comando == ComandoChat::Encerrar && final(entrada)@ == old(entrada)@,
        !fim ==> final(entrada)@ == sem_terminador(old(entrada)@),
        !fim ==> (comando == ComandoChat::Encerrar <==> sem_terminador(old(entrada)@) == "/sair"@),
{
    if fim {
        return ComandoChat::Encerrar;
    }
    remover_terminador_linha(entrada);
    if textos_iguais(entrada.as_str(), "/sair") {
        ComandoChat::Encerrar
    } else {
        ComandoChat::Enviar
    }
}

/// Mensagem a exibir no terminal.
pub enum Aviso {
    ConfirmacaoLocalEnviada,
    FingerprintDivergente,
    VerificacaoCancelada,
    /// A linha de chat pendente foi cifrada e enviada.
    ChatEnviado,
    MensagemRejeitada,
    ConfirmacaoRemota,
    ChatRecebido(String),
    CloseRecebido(MotivoClose),
    ConexaoEncerradaSemClose,
    TimeoutClose,
    TimeoutVerificacao,
    IdleTimeout,
}

/// O que quem conduz a entrada e saída deve fazer em seguida.
pub enum Acao {
    /// Voltar ao início do laço (`preparar`).
    Continuar,
    /// Exibir a mensagem e voltar ao início do laço.
    Exibir(Aviso),
    /// Exibir `VERIFIED`, iniciar a leitura de linhas de chat e voltar ao início.
    IniciarChat,
    /// Aguardar um evento por até tantos milissegundos.
    Aguardar(u64),
    /// Escrever o frame até o prazo e informar o resultado em `apos_escrita`.
    Escrever { frame: Vec<u8>, prazo: u64 },
    /// Exibir a mensagem, se houver, fechar o socket se pedido e terminar.
    Encerrar { resultado: ResultadoInterativo, aviso: Option<Aviso>, desligar: bool },
    /// Terminar com o erro de sessão.
    Abortar(ErroSessao),
    /// Terminar com o erro da escrita que acabou de falhar.
    PropagarFalhaEscrita,
}

/// Continuação de uma escrita em andamento.
#[derive(Clone, Copy, Debug, PartialEq, Eq, Structural)]
pub enum Pendente {
    Confirmacao,
    Divergencia,
    Cancelamento,
    CancelamentoLocal,
    TimeoutVerificacao,
    Chat,
    CloseLocal { prazo: u64 },
    RespostaClose { motivo: MotivoClose },
    Idle { prazo: u64 },
}

/// Maior instante, em milissegundos, aceito pelo relógio da sessão.
pub const LIMITE_RELOGIO: u64 = 0x7fff_ffff_ffff_ffff;

/// Decisões do laço interativo de verificação e chat, separadas da entrada
/// e saída: cada evento produz a próxima `Acao`.
pub struct MaquinaInterativa {
    sessao: SessaoVerificacao,
    deadline_verificacao: u64,
    timeout_idle: u64,
    close_deadline: Option<u64>,
    controle_idle: Option<ControleIdle>,
    entrada_chat_iniciada: bool,
    chegou_a_verified: bool,
    pendente: Option<Pendente>,
}

impl MaquinaInterativa {
    pub closed spec fn sessao_atual(&self) -> SessaoVerificacao {
        self.sessao
    }

    pub closed spec fn escrita_pendente(&self) -> Option<Pendente> {
        self.pendente
    }

    pub closed spec fn verificada_alguma_vez(&self) -> bool {
        self.chegou_a_verified
    }

    pub closed spec fn prazo_verificacao(&self) -> u64 {
        self.deadline_verificacao
    }

    /// Limite ocioso configurado, em milissegundos.
    pub closed spec fn duracao_idle(&self) -> u64 {
        self.timeout_idle
    }

    pub closed spec fn prazo_close(&self) -> Option<u64> {
        self.close_deadline
    }

    pub closed spec fn prazo_idle(&self) -> Option<u64> {
        match self.controle_idle {
            Some(i) => Some(i.deadline_idle()),
            None => None,
        }
    }

    /// O prazo de verificação e a duração ociosa configurada não mudam:
    /// nenhum evento reinicia o prazo de verificação.
    pub open spec fn mesmos_limites(antes: MaquinaInterativa, depois: MaquinaInterativa) -> bool {
        &&& depois.prazo_verificacao() == antes.prazo_verificacao()
        &&& depois.duracao_idle() == antes.duracao_idle()
    }

    pub closed spec fn bem_formada(&self) -> bool {
        &&& self.controle_idle matches Some(i) ==> i.duracao_idle() == self.timeout_idle
        &&& self.entrada_chat_iniciada == self.chegou_a_verified
        &&& self.chegou_a_verified == self.controle_idle.is_some()
        &&& self.pendente.is_none() && self.sessao@.estado == EstadoSessao::Closing
            ==> self.close_deadline.is_some()
        &&& self.pendente matches Some(p) ==> match p {
            Pendente::Confirmacao => self.sessao@.estado == EstadoSessao::Unverified
                || self.sessao@.estado == EstadoSessao::Verified,
            Pendente::Chat => self.sessao@.estado == EstadoSessao::Verified,
            Pendente::CloseLocal { .. } => self.sessao@.estado == EstadoSessao::Closing,
            Pendente::Idle { .. } => self.sessao@.estado == EstadoSessao::Closing,
            Pendente::RespostaClose { .. } => self.sessao@.estado == EstadoSessao::Closing
                && self.sessao@.peer_close_received,
            Pendente::Divergencia => self.sessao@.estado == EstadoSessao::Failed,
            _ => self.sessao@.estado == EstadoSessao::Closed,
        }
    }

    /// Máquina para uma sessão recém-estabelecida, com os prazos de
    /// verificação e de ociosidade dados em milissegundos; os prazos saturam
    /// no maior instante representável.
    pub fn new(sessao: SessaoVerificacao, timeout_verificacao: u64, timeout_idle: u64, agora: u64) -> (m:
        MaquinaInterativa)
        requires
            sessao@ == ControleSessao::inicial(),
        ensures
            m.bem_formada(),
            m.sessao_atual() == sessao,
            m.escrita_pendente().is_none(),
            !m.verificada_alguma_vez(),
            m.prazo_verificacao() == agora.saturating_add(timeout_verificacao),
            m.duracao_idle() == timeout_idle,
            m.prazo_close().is_none(),
    {
        MaquinaInterativa {
            sessao,
            deadline_verificacao: agora.saturating_add(timeout_verificacao),
            timeout_idle,
            close_deadline: None,
            controle_idle: None,
            entrada_chat_iniciada: false,
            chegou_a_verified: false,
            pendente: None,
        }
    }

    pub fn estado(&self) -> (estado: EstadoSessao)
        ensures
            estado == self.sessao_atual()@.estado,
    {
        self.sessao.estado()
    }

    pub fn fingerprint(&self) -> (fingerprint: &str)
        ensures
            fingerprint@ == texto_fingerprint(self.sessao_atual().hash_sessao()),
    {
        self.sessao.fingerprint()
    }
}

} // verus!

verus! {

/// Um desfecho só é apresentado como encerramento autenticado quando um
/// `CLOSE` remoto válido foi recebido; `VERIFIED_AND_CLOSED` exige que a
/// sessão tenha chegado a `VERIFIED`; divergência de fingerprint é `FAILED`.
pub open spec fn desfecho_honesto(acao: Acao, m: MaquinaInterativa) -> bool {
    acao matches Acao::Encerrar { resultado, .. } ==> {
        &&& (resultado == ResultadoInterativo::VerifiedAndClosed
            || resultado == ResultadoInterativo::AuthenticatedClose) ==> m.sessao_atual()@.peer_close_received
            && m.sessao_atual()@.estado == EstadoSessao::Closed
        &&& resultado == ResultadoInterativo::VerifiedAndClosed ==> m.verificada_alguma_vez()
        &&& resultado == ResultadoInterativo::AuthenticatedClose ==> !m.verificada_alguma_vez()
        &&& resultado == ResultadoInterativo::FingerprintMismatch ==> m.sessao_atual()@.estado
            == EstadoSessao::Failed
    }
}

/// A ação pede a escrita do ciphertext de `pt`, e só de `pt`: o frame é
/// exatamente o que o canal cifrou para `pt` (com o tamanho de `pt` mais a
/// tag), e a transcrição de envio ganha `pt` e esse frame.
pub open spec fn escreveu(acao: Acao, antes: MaquinaInterativa, depois: MaquinaInterativa, pt: Seq<u8>) -> bool {
    &&& acao matches Acao::Escrever { frame, .. } && frame@.len() == pt.len() + TAG_LEN
        && depois.sessao_atual().cifrados_enviados() == antes.sessao_atual().cifrados_enviados().push(frame@)
    &&& depois.sessao_atual().enviados() == antes.sessao_atual().enviados().push(pt)
    &&& depois.sessao_atual().recebidos() == antes.sessao_atual().recebidos()
    &&& depois.sessao_atual().frames_recebidos() == antes.sessao_atual().frames_recebidos()
}

impl MaquinaInterativa {
    /// Prazo esgotado no estado atual: `CLOSING` termina sem confirmação do
    /// peer; `UNVERIFIED` envia `CLOSE(VERIFICATION_ABORTED)`; `VERIFIED`
    /// envia `CLOSE(IDLE_TIMEOUT)` e passa a aguardar a resposta.
    pub fn tratar_timeout(&mut self, agora: u64) -> (acao: Acao)
        requires
            old(self).bem_formada(),
            old(self).escrita_pendente().is_none(),
            agora <= LIMITE_RELOGIO,
        ensures
            final(self).bem_formada(),
            MaquinaInterativa::mesmos_limites(*old(self), *final(self)),
            old(self).sessao_atual().cifra_disponivel() && (old(self).sessao_atual()@.estado == EstadoSessao::Unverified || old(self).sessao_atual()@.estado == EstadoSessao::Verified) ==> acao is Escrever,
            final(self).prazo_idle() == old(self).prazo_idle(),
            desfecho_honesto(acao, *final(self)),
            final(self).verificada_alguma_vez() == old(self).verificada_alguma_vez(),
            old(self).sessao_atual()@.estado == EstadoSessao::Closing ==> (acao matches Acao::Encerrar {
                resultado: ResultadoInterativo::CloseTimeout,
                aviso: Some(Aviso::TimeoutClose),
                desligar: true,
            }) && final(self).sessao_atual()@ == old(self).sessao_atual()@.apos_timeout_close(),
            old(self).sessao_atual()@.estado == EstadoSessao::Unverified ==> ({
                ||| (acao matches Acao::Escrever { prazo, .. } && prazo == agora + CLOSE_RESPONSE_TIMEOUT_MS
                    && escreveu(acao, *old(self), *final(self), seq![CLOSE, byte_do_motivo(MotivoClose::VerificationAborted)])
                    && final(self).escrita_pendente() == Some(Pendente::TimeoutVerificacao)
                    && final(self).sessao_atual()@ == old(self).sessao_atual()@.apos_aborto(EstadoSessao::Closed))
                ||| (acao is Abortar && final(self).sessao_atual()@ == old(self).sessao_atual()@.falhar())
            }),
            old(self).sessao_atual()@.estado == EstadoSessao::Verified ==> ({
                ||| (acao matches Acao::Escrever { prazo, .. } && prazo == agora + CLOSE_RESPONSE_TIMEOUT_MS
                    && escreveu(acao, *old(self), *final(self), seq![CLOSE, byte_do_motivo(MotivoClose::IdleTimeout)])
                    && final(self).escrita_pendente() == Some(Pendente::Idle { prazo })
                    && final(self).sessao_atual()@ == old(self).sessao_atual()@.apos_close_local())
                ||| (acao is Abortar && final(self).sessao_atual()@ == old(self).sessao_atual()@.falhar())
            }),
            old(self).sessao_atual()@.terminal() ==> (acao matches Acao::Encerrar {
                resultado: ResultadoInterativo::ProtocolFailure,
                aviso: None,
                desligar: false,
            }) && final(self).sessao_atual()@ == old(self).sessao_atual()@,
    {
        match self.sessao.estado() {
            EstadoSessao::Closing => {
                self.sessao.timeout_close();
                Acao::Encerrar {
                    resultado: ResultadoInterativo::CloseTimeout,
                    aviso: Some(Aviso::TimeoutClose),
                    desligar: true,
                }
            },
            EstadoSessao::Unverified => match self.sessao.timeout_verificacao() {
                Ok(close) => {
                    self.pendente = Some(Pendente::TimeoutVerificacao);
                    Acao::Escrever { frame: close, prazo: agora + CLOSE_RESPONSE_TIMEOUT_MS }
                },
                Err(e) => Acao::Abortar(e),
            },
            EstadoSessao::Verified => match self.sessao.timeout_idle() {
                Ok(close) => {
                    let prazo = agora + CLOSE_RESPONSE_TIMEOUT_MS;
                    self.pendente = Some(Pendente::Idle { prazo });
                    Acao::Escrever { frame: close, prazo }
                },
                Err(e) => Acao::Abortar(e),
            },
            _ => Acao::Encerrar {
                resultado: ResultadoInterativo::ProtocolFailure,
                aviso: None,
                desligar: false,
            },
        }
    }
}

} // verus!

verus! {

impl MaquinaInterativa {
    /// Continua depois da escrita pedida por `Acao::Escrever`.
    pub fn apos_escrita(&mut self, sucesso: bool, agora: u64) -> (acao: Acao)
        requires
            old(self).bem_formada(),
            old(self).escrita_pendente().is_some(),
            agora <= LIMITE_RELOGIO,
        ensures
            final(self).bem_formada(),
            MaquinaInterativa::mesmos_limites(*old(self), *final(self)),
            !(old(self).escrita_pendente() == Some(Pendente::Chat) && sucesso) ==> final(self).prazo_idle()
                == old(self).prazo_idle(),
            final(self).escrita_pendente().is_none(),
            desfecho_honesto(acao, *final(self)),
            final(self).verificada_alguma_vez() == old(self).verificada_alguma_vez(),
            match old(self).escrita_pendente().unwrap() {
                Pendente::Confirmacao => {
                    &&& !sucesso ==> acao is PropagarFalhaEscrita
                    &&& sucesso && old(self).sessao_atual()@.estado == EstadoSessao::Unverified
                        ==> (acao matches Acao::Exibir(Aviso::ConfirmacaoLocalEnviada))
                    &&& sucesso && old(self).sessao_atual()@.estado != EstadoSessao::Unverified
                        ==> acao is Continuar
                    &&& final(self).sessao_atual()@ == old(self).sessao_atual()@
                },
                Pendente::Divergencia => (acao matches Acao::Encerrar {
                    resultado: ResultadoInterativo::FingerprintMismatch,
                    aviso: Some(Aviso::FingerprintDivergente),
                    desligar: true,
                }) && final(self).sessao_atual()@ == old(self).sessao_atual()@,
                Pendente::Cancelamento => (acao matches Acao::Encerrar {
                    resultado: ResultadoInterativo::LocalCancellation,
                    aviso: Some(Aviso::VerificacaoCancelada),
                    desligar: true,
                }) && final(self).sessao_atual()@ == old(self).sessao_atual()@,
                Pendente::CancelamentoLocal => (acao matches Acao::Encerrar {
                    resultado: ResultadoInterativo::LocalCancellation,
                    aviso: None,
                    desligar: true,
                }) && final(self).sessao_atual()@ == old(self).sessao_atual()@,
                Pendente::TimeoutVerificacao => (acao matches Acao::Encerrar {
                    resultado: ResultadoInterativo::VerificationTimeout,
                    aviso: Some(Aviso::TimeoutVerificacao),
                    desligar: true,
                }) && final(self).sessao_atual()@ == old(self).sessao_atual()@,
                Pendente::Chat => {
                    &&& !sucesso ==> (acao matches Acao::Encerrar {
                        resultado: ResultadoInterativo::NetworkInterruption,
                        aviso: None,
                        desligar: true,
                    }) && final(self).sessao_atual()@ == old(self).sessao_atual()@.apos_interrupcao()
                    &&& sucesso ==> (acao matches Acao::Exibir(Aviso::ChatEnviado))
                        && final(self).sessao_atual()@ == old(self).sessao_atual()@
                        && (old(self).prazo_idle() is Some ==> final(self).prazo_idle() == Some(
                        agora.saturating_add(old(self).duracao_idle())))
                },
                Pendente::CloseLocal { prazo } => {
                    &&& !sucesso ==> (acao matches Acao::Encerrar {
                        resultado: ResultadoInterativo::NetworkInterruption,
                        aviso: None,
                        desligar: true,
                    }) && final(self).sessao_atual()@ == old(self).sessao_atual()@.apos_interrupcao()
                    &&& sucesso ==> acao is Continuar && final(self).prazo_close() == Some(prazo)
                        && final(self).sessao_atual()@ == old(self).sessao_atual()@
                },
                Pendente::Idle { prazo } => {
                    &&& !sucesso ==> (acao matches Acao::Encerrar {
                        resultado: ResultadoInterativo::NetworkInterruption,
                        aviso: None,
                        desligar: true,
                    }) && final(self).sessao_atual()@ == old(self).sessao_atual()@.apos_interrupcao()
                    &&& sucesso ==> (acao matches Acao::Exibir(Aviso::IdleTimeout)) && final(self).prazo_close()
                        == Some(prazo) && final(self).sessao_atual()@ == old(self).sessao_atual()@
                },
                Pendente::RespostaClose { motivo } => {
                    &&& (acao matches Acao::Encerrar { resultado, aviso: Some(Aviso::CloseRecebido(m)), desligar: true }
                        && m == motivo && resultado == (if old(self).verificada_alguma_vez() {
                        ResultadoInterativo::VerifiedAndClosed
                    } else {
                        ResultadoInterativo::AuthenticatedClose
                    }))
                    &&& final(self).sessao_atual()@ == old(self).sessao_atual()@.apos_concluir_close()
                },
            },
    {
        let pendente = self.pendente.unwrap();
        self.pendente = None;
        match pendente {
            Pendente::Confirmacao => {
                if !sucesso {
                    Acao::PropagarFalhaEscrita
                } else if self.sessao.estado() == EstadoSessao::Unverified {
                    Acao::Exibir(Aviso::ConfirmacaoLocalEnviada)
                } else {
                    Acao::Continuar
                }
            },
            Pendente::Divergencia => Acao::Encerrar {
                resultado: ResultadoInterativo::FingerprintMismatch,
                aviso: Some(Aviso::FingerprintDivergente),
                desligar: true,
            },
            Pendente::Cancelamento => Acao::Encerrar {
                resultado: ResultadoInterativo::LocalCancellation,
                aviso: Some(Aviso::VerificacaoCancelada),
                desligar: true,
            },
            Pendente::CancelamentoLocal => Acao::Encerrar {
                resultado: ResultadoInterativo::LocalCancellation,
                aviso: None,
                desligar: true,
            },
            Pendente::TimeoutVerificacao => Acao::Encerrar {
                resultado: ResultadoInterativo::VerificationTimeout,
                aviso: Some(Aviso::TimeoutVerificacao),
                desligar: true,
            },
            Pendente::Chat => {
                if !sucesso {
                    self.sessao.registrar_interrupcao();
                    Acao::Encerrar {
                        resultado: ResultadoInterativo::NetworkInterruption,
                        aviso: None,
                        desligar: true,
                    }
                } else {
                    if let Some(idle) = self.controle_idle {
                        let mut idle = idle;
                        idle.registrar_atividade(agora);
                        self.controle_idle = Some(idle);
                    }
                    Acao::Exibir(Aviso::ChatEnviado)
                }
            },
            Pendente::CloseLocal { prazo } => {
                if !sucesso {
                    self.sessao.registrar_interrupcao();
                    Acao::Encerrar {
                        resultado: ResultadoInterativo::NetworkInterruption,
                        aviso: None,
                        desligar: true,
                    }
                } else {
                    self.close_deadline = Some(prazo);
                    Acao::Continuar
                }
            },
            Pendente::Idle { prazo } => {
                if !sucesso {
                    self.sessao.registrar_interrupcao();
                    Acao::Encerrar {
                        resultado: ResultadoInterativo::NetworkInterruption,
                        aviso: None,
                        desligar: true,
                    }
                } else {
                    self.close_deadline = Some(prazo);
                    Acao::Exibir(Aviso::IdleTimeout)
                }
            },
            Pendente::RespostaClose { motivo } => {
                self.sessao.concluir_close_recebido();
                Acao::Encerrar {
                    resultado: if self.chegou_a_verified {
                        ResultadoInterativo::VerifiedAndClosed
                    } else {
                        ResultadoInterativo::AuthenticatedClose
                    },
                    aviso: Some(Aviso::CloseRecebido(motivo)),
                    desligar: true,
                }
            },
        }
    }
}

} // verus!

verus! {

impl MaquinaInterativa {
    /// Decisão explícita do usuário sobre o fingerprint; fora de
    /// `UNVERIFIED` é ignorada.
    pub fn tratar_decisao(&mut self, decisao: DecisaoUsuario) -> (acao: Acao)
        requires
            old(self).bem_formada(),
            old(self).escrita_pendente().is_none(),
        ensures
            final(self).bem_formada(),
            MaquinaInterativa::mesmos_limites(*old(self), *final(self)),
            old(self).sessao_atual().cifra_disponivel() && old(self).sessao_atual()@.estado == EstadoSessao::Unverified && !(decisao == DecisaoUsuario::Confirma
                && old(self).sessao_atual()@.local_confirmed) ==> acao is Escrever,
            final(self).prazo_idle() == old(self).prazo_idle(),
            desfecho_honesto(acao, *final(self)),
            final(self).verificada_alguma_vez() == old(self).verificada_alguma_vez(),
            old(self).sessao_atual()@.estado != EstadoSessao::Unverified ==> acao is Continuar
                && final(self).sessao_atual() == old(self).sessao_atual()
                && final(self).escrita_pendente().is_none(),
            old(self).sessao_atual()@.estado == EstadoSessao::Unverified ==> ({
                ||| (acao matches Acao::Escrever { prazo, .. } && prazo == old(self).prazo_verificacao()
                    && escreveu(acao, *old(self), *final(self), match decisao {
                        DecisaoUsuario::Confirma => seq![VERIFY_CONFIRMED],
                        _ => seq![CLOSE, byte_do_motivo(MotivoClose::VerificationAborted)],
                    })
                    && final(self).escrita_pendente() == Some(match decisao {
                        DecisaoUsuario::Confirma => Pendente::Confirmacao,
                        DecisaoUsuario::Diverge => Pendente::Divergencia,
                        DecisaoUsuario::Cancela => Pendente::Cancelamento,
                    }) && final(self).sessao_atual()@ == match decisao {
                        DecisaoUsuario::Confirma => old(self).sessao_atual()@.apos_confirmacao_local(),
                        DecisaoUsuario::Diverge => old(self).sessao_atual()@.apos_aborto(EstadoSessao::Failed),
                        DecisaoUsuario::Cancela => old(self).sessao_atual()@.apos_aborto(EstadoSessao::Closed),
                    })
                ||| (acao is Abortar && final(self).sessao_atual()@.estado == EstadoSessao::Failed
                    && final(self).escrita_pendente().is_none())
            }),
    {
        proof {
            use_type_invariant(&self.sessao);
        }
        if self.sessao.estado() != EstadoSessao::Unverified {
            return Acao::Continuar;
        }
        let (resultado, pendente) = match decisao {
            DecisaoUsuario::Confirma => (self.sessao.confirmar_localmente(), Pendente::Confirmacao),
            DecisaoUsuario::Diverge => (self.sessao.divergencia_local(), Pendente::Divergencia),
            DecisaoUsuario::Cancela => (self.sessao.cancelamento_local(), Pendente::Cancelamento),
        };
        match resultado {
            Ok(frame) => {
                self.pendente = Some(pendente);
                Acao::Escrever { frame, prazo: self.deadline_verificacao }
            },
            Err(e) => Acao::Abortar(e),
        }
    }

    /// Linha de chat digitada; só é cifrada em `VERIFIED`. Tamanho inválido
    /// é rejeitado com aviso; evento fora de estado é ignorado.
    pub fn tratar_linha_chat(&mut self, linha: &str, agora: u64) -> (acao: Acao)
        requires
            old(self).bem_formada(),
            old(self).escrita_pendente().is_none(),
            agora <= LIMITE_RELOGIO,
        ensures
            final(self).bem_formada(),
            MaquinaInterativa::mesmos_limites(*old(self), *final(self)),
            old(self).sessao_atual().cifra_disponivel() && old(self).sessao_atual()@.estado == EstadoSessao::Verified && 1 <= linha.spec_bytes().len() <= MAX_CHAT_CONTENT ==> acao is Escrever,
            final(self).prazo_idle() == old(self).prazo_idle(),
            desfecho_honesto(acao, *final(self)),
            final(self).verificada_alguma_vez() == old(self).verificada_alguma_vez(),
            old(self).sessao_atual()@.estado != EstadoSessao::Verified ==> acao is Continuar
                && final(self).sessao_atual() == old(self).sessao_atual()
                && final(self).escrita_pendente().is_none(),
            old(self).sessao_atual()@.estado == EstadoSessao::Verified && 1 <= linha.spec_bytes().len()
                <= MAX_CHAT_CONTENT ==> ({
                ||| (acao matches Acao::Escrever { prazo, .. } && prazo == agora + crate::framing::FRAME_PROGRESS_TIMEOUT_MS
                    && escreveu(acao, *old(self), *final(self), seq![CHAT] + linha.spec_bytes())
                    && final(self).escrita_pendente() == Some(Pendente::Chat)
                    && final(self).sessao_atual()@ == old(self).sessao_atual()@)
                ||| ((acao matches Acao::Exibir(Aviso::MensagemRejeitada))
                    && final(self).sessao_atual()@ == old(self).sessao_atual()@.falhar()
                    && final(self).escrita_pendente().is_none())
            }),
            old(self).sessao_atual()@.estado == EstadoSessao::Verified && !(1 <= linha.spec_bytes().len()
                <= MAX_CHAT_CONTENT) ==> (acao matches Acao::Exibir(Aviso::MensagemRejeitada))
                && final(self).sessao_atual()@ == old(self).sessao_atual()@
                && final(self).escrita_pendente().is_none(),
    {
        if self.sessao.estado() != EstadoSessao::Verified {
            return Acao::Continuar;
        }
        match self.sessao.enviar_chat(linha) {
            Ok(frame) => {
                self.pendente = Some(Pendente::Chat);
                Acao::Escrever { frame, prazo: agora + crate::framing::FRAME_PROGRESS_TIMEOUT_MS }
            },
            Err(e) => {
                if e.categoria() == CategoriaErroSessao::Estado {
                    Acao::Continuar
                } else {
                    Acao::Exibir(Aviso::MensagemRejeitada)
                }
            },
        }
    }

    /// Pedido local de encerramento (`/sair` ou fim da entrada): cancela a
    /// verificação em `UNVERIFIED` ou inicia `CLOSE(NORMAL)` em `VERIFIED`.
    pub fn tratar_encerramento_local(&mut self, agora: u64) -> (acao: Acao)
        requires
            old(self).bem_formada(),
            old(self).escrita_pendente().is_none(),
            agora <= LIMITE_RELOGIO,
        ensures
            final(self).bem_formada(),
            MaquinaInterativa::mesmos_limites(*old(self), *final(self)),
            old(self).sessao_atual().cifra_disponivel() && (old(self).sessao_atual()@.estado == EstadoSessao::Unverified || old(self).sessao_atual()@.estado == EstadoSessao::Verified) ==> acao is Escrever,
            final(self).prazo_idle() == old(self).prazo_idle(),
            desfecho_honesto(acao, *final(self)),
            final(self).verificada_alguma_vez() == old(self).verificada_alguma_vez(),
            old(self).sessao_atual()@.estado == EstadoSessao::Unverified ==> ({
                ||| (acao matches Acao::Escrever { prazo, .. } && prazo == agora + CLOSE_RESPONSE_TIMEOUT_MS
                    && escreveu(acao, *old(self), *final(self), seq![CLOSE, byte_do_motivo(MotivoClose::VerificationAborted)])
                    && final(self).escrita_pendente() == Some(Pendente::CancelamentoLocal)
                    && final(self).sessao_atual()@ == old(self).sessao_atual()@.apos_aborto(EstadoSessao::Closed))
                ||| (acao is Abortar && final(self).sessao_atual()@ == old(self).sessao_atual()@.falhar())
            }),
            old(self).sessao_atual()@.estado == EstadoSessao::Verified ==> ({
                ||| (acao matches Acao::Escrever { prazo, .. } && prazo == agora + CLOSE_RESPONSE_TIMEOUT_MS
                    && escreveu(acao, *old(self), *final(self), seq![CLOSE, byte_do_motivo(MotivoClose::Normal)])
                    && final(self).escrita_pendente() == Some(Pendente::CloseLocal { prazo })
                    && final(self).sessao_atual()@ == old(self).sessao_atual()@.apos_close_local())
                ||| (acao is Abortar && final(self).sessao_atual()@ == old(self).sessao_atual()@.falhar())
            }),
            !(old(self).sessao_atual()@.estado == EstadoSessao::Unverified
                || old(self).sessao_atual()@.estado == EstadoSessao::Verified) ==> acao is Continuar
                && final(self).sessao_atual() == old(self).sessao_atual()
                && final(self).escrita_pendente().is_none(),
    {
        match self.sessao.estado() {
            EstadoSessao::Unverified => match self.sessao.cancelamento_local() {
                Ok(frame) => {
                    self.pendente = Some(Pendente::CancelamentoLocal);
                    Acao::Escrever { frame, prazo: agora + CLOSE_RESPONSE_TIMEOUT_MS }
                },
                Err(e) => Acao::Abortar(e),
            },
            EstadoSessao::Verified => match self.sessao.iniciar_close(MotivoClose::Normal) {
                Ok(frame) => {
                    let prazo = agora + CLOSE_RESPONSE_TIMEOUT_MS;
                    self.pendente = Some(Pendente::CloseLocal { prazo });
                    Acao::Escrever { frame, prazo }
                },
                Err(e) => Acao::Abortar(e),
            },
            _ => Acao::Continuar,
        }
    }

    /// Erro de leitura de frame: tamanho inválido é falha de protocolo; os
    /// demais são interrupção comum, nunca encerramento autenticado.
    pub fn tratar_falha_rede(&mut self, tipo: crate::address::TipoErroRede) -> (acao: Acao)
        requires
            old(self).bem_formada(),
            old(self).escrita_pendente().is_none(),
        ensures
            final(self).bem_formada(),
            MaquinaInterativa::mesmos_limites(*old(self), *final(self)),
            final(self).prazo_idle() == old(self).prazo_idle(),
            desfecho_honesto(acao, *final(self)),
            final(self).escrita_pendente().is_none(),
            final(self).verificada_alguma_vez() == old(self).verificada_alguma_vez(),
            tipo == crate::address::TipoErroRede::InvalidData ==> (acao matches Acao::Encerrar {
                resultado: ResultadoInterativo::ProtocolFailure,
                aviso: None,
                desligar: true,
            }) && final(self).sessao_atual()@ == old(self).sessao_atual()@.apos_falha_protocolo(),
            tipo != crate::address::TipoErroRede::InvalidData ==> (acao matches Acao::Encerrar {
                resultado: ResultadoInterativo::NetworkInterruption,
                aviso: Some(Aviso::ConexaoEncerradaSemClose),
                desligar: true,
            }) && final(self).sessao_atual()@ == old(self).sessao_atual()@.apos_interrupcao(),
    {
        if tipo == crate::address::TipoErroRede::InvalidData {
            self.sessao.registrar_falha_protocolo();
            Acao::Encerrar { resultado: ResultadoInterativo::ProtocolFailure, aviso: None, desligar: true }
        } else {
            self.sessao.registrar_interrupcao();
            Acao::Encerrar {
                resultado: ResultadoInterativo::NetworkInterruption,
                aviso: Some(Aviso::ConexaoEncerradaSemClose),
                desligar: true,
            }
        }
    }

    /// Todas as fontes de eventos terminaram: interrupção comum.
    pub fn tratar_desconexao(&mut self) -> (acao: Acao)
        requires
            old(self).bem_formada(),
            old(self).escrita_pendente().is_none(),
        ensures
            final(self).bem_formada(),
            MaquinaInterativa::mesmos_limites(*old(self), *final(self)),
            final(self).escrita_pendente().is_none(),
            (acao matches Acao::Encerrar {
                resultado: ResultadoInterativo::NetworkInterruption,
                aviso: None,
                desligar: false,
            }),
            final(self).sessao_atual()@ == old(self).sessao_atual()@.apos_interrupcao(),
    {
        self.sessao.registrar_interrupcao();
        Acao::Encerrar { resultado: ResultadoInterativo::NetworkInterruption, aviso: None, desligar: false }
    }
}

} // verus!

verus! {

impl MaquinaInterativa {
    /// Decisão para um frame recebido numa sessão não terminal. Se a
    /// autenticação falha, `AeadFailure` sem nada entregue. Se não, o plaintext
    /// `pt` entra na transcrição de entrada e: mensagem rejeitada dá
    /// `ProtocolFailure`; `VERIFY_CONFIRMED` aceito é avisado enquanto a sessão
    /// segue em `UNVERIFIED`; `CHAT` aceito é exibido; `CLOSE` que responde ao
    /// `CLOSE` local encerra a sessão como fechamento autenticado; outro `CLOSE`
    /// aceito é respondido uma vez com o mesmo motivo (ou, se a cifra falhar,
    /// `AeadFailure`).
    pub open spec fn decisao_do_frame(
        antes: MaquinaInterativa,
        depois: MaquinaInterativa,
        frame: Seq<u8>,
        agora: u64,
        acao: Acao,
    ) -> bool {
        let s0 = antes.sessao_atual();
        let s1 = depois.sessao_atual();
        let c = s0@;
        let pt = s1.recebidos().last();
        ||| {
            &&& s1@ == c.falhar()
            &&& SessaoVerificacao::mesma_transcricao_exceto_entrada(&s0, &s1)
            &&& s1.frames_recebidos() == s0.frames_recebidos().push(frame)
            &&& acao matches Acao::Encerrar {
                resultado: ResultadoInterativo::AeadFailure,
                aviso: None,
                desligar: true,
            }
            &&& depois.escrita_pendente().is_none()
        }
        ||| {
            &&& s1.recebidos() == s0.recebidos().push(pt)
            &&& s1.frames_recebidos() == s0.frames_recebidos().push(frame)
            &&& pt.len() + TAG_LEN == frame.len()
            &&& s1.hash_sessao() == s0.hash_sessao()
            &&& if !aceita_mensagem(c, pt) {
                &&& s1@ == c.falhar()
                &&& SessaoVerificacao::envios_iguais(&s0, &s1)
                &&& acao matches Acao::Encerrar {
                    resultado: ResultadoInterativo::ProtocolFailure,
                    aviso: None,
                    desligar: true,
                }
                &&& depois.escrita_pendente().is_none()
            } else if e_confirmacao(pt) {
                &&& s1@ == controle_apos_mensagem(c, pt)
                &&& SessaoVerificacao::envios_iguais(&s0, &s1)
                &&& s1@.estado == EstadoSessao::Unverified ==> (acao matches Acao::Exibir(
                    Aviso::ConfirmacaoRemota,
                ))
                &&& s1@.estado != EstadoSessao::Unverified ==> acao is Continuar
                &&& depois.escrita_pendente().is_none()
            } else if e_chat(pt) {
                &&& s1@ == c
                &&& SessaoVerificacao::envios_iguais(&s0, &s1)
                &&& acao matches Acao::Exibir(Aviso::ChatRecebido(texto)) && texto@ == decode_utf8(pt.drop_first())
                &&& depois.escrita_pendente().is_none()
            } else if c.close_sent {
                &&& s1@ == controle_apos_mensagem(c, pt).apos_concluir_close()
                &&& s1@.estado == EstadoSessao::Closed
                &&& SessaoVerificacao::envios_iguais(&s0, &s1)
                &&& acao matches Acao::Encerrar { resultado, aviso: Some(Aviso::CloseRecebido(motivo)), desligar }
                    && desligar && Some(motivo) == motivo_do_byte(pt[1]) && resultado == (if antes.verificada_alguma_vez() {
                    ResultadoInterativo::VerifiedAndClosed
                } else {
                    ResultadoInterativo::AuthenticatedClose
                })
                &&& depois.escrita_pendente().is_none()
            } else {
                &&& s0.cifra_disponivel() ==> acao is Escrever
                &&& {
                    ||| {
                        &&& acao matches Acao::Escrever { frame: resposta, prazo } && prazo == agora
                            + CLOSE_RESPONSE_TIMEOUT_MS && resposta@.len() == 2 + TAG_LEN
                            && s1.cifrados_enviados() == s0.cifrados_enviados().push(resposta@)
                        &&& s1@ == controle_apos_mensagem(c, pt)
                        &&& s1.enviados() == s0.enviados().push(seq![CLOSE, pt[1]])
                        &&& depois.escrita_pendente() matches Some(Pendente::RespostaClose { motivo }) && Some(motivo)
                            == motivo_do_byte(pt[1])
                    }
                    ||| {
                        &&& acao matches Acao::Encerrar {
                            resultado: ResultadoInterativo::AeadFailure,
                            aviso: None,
                            desligar: true,
                        }
                        &&& s1@ == (ControleSessao { peer_close_received: true, ..c }).falhar()
                        &&& SessaoVerificacao::envios_iguais(&s0, &s1)
                        &&& depois.escrita_pendente().is_none()
                    }
                }
            }
        }
    }

    /// Frame de transporte lido da conexão: decifra, processa e decide.
    /// Falha de autenticação ou de protocolo encerra a sessão; um `CLOSE`
    /// remoto aceito é respondido, se preciso, e termina a sessão.
    pub fn tratar_frame(&mut self, frame: &[u8], agora: u64) -> (acao: Acao)
        requires
            old(self).bem_formada(),
            old(self).escrita_pendente().is_none(),
            agora <= LIMITE_RELOGIO,
        ensures
            final(self).bem_formada(),
            MaquinaInterativa::mesmos_limites(*old(self), *final(self)),
            !(acao matches Acao::Exibir(Aviso::ChatRecebido(_))) ==> final(self).prazo_idle() == old(self).prazo_idle(),
            (acao matches Acao::Exibir(Aviso::ChatRecebido(_))) && old(self).prazo_idle() is Some ==> final(self).prazo_idle()
                == Some(agora.saturating_add(old(self).duracao_idle())),
            desfecho_honesto(acao, *final(self)),
            final(self).verificada_alguma_vez() == old(self).verificada_alguma_vez(),
            !old(self).sessao_atual()@.terminal() ==> MaquinaInterativa::decisao_do_frame(*old(self), *final(self),
                frame@, agora, acao),
            old(self).sessao_atual()@.terminal() ==> (acao matches Acao::Encerrar {
                resultado: ResultadoInterativo::ProtocolFailure,
                aviso: None,
                desligar: true,
            }) && SessaoVerificacao::inalterada(&old(self).sessao_atual(), &final(self).sessao_atual())
                && final(self).escrita_pendente().is_none(),
    {
        proof {
            use_type_invariant(&self.sessao);
        }
        let verificada_antes = self.sessao.estado() == EstadoSessao::Verified;
        match self.sessao.processar_ciphertext(frame) {
            Err(e) => Acao::Encerrar {
                resultado: if e.categoria() == CategoriaErroSessao::Aead {
                    ResultadoInterativo::AeadFailure
                } else {
                    ResultadoInterativo::ProtocolFailure
                },
                aviso: None,
                desligar: true,
            },
            Ok(EventoRemoto::VerifyConfirmed) => {
                if self.sessao.estado() == EstadoSessao::Unverified {
                    Acao::Exibir(Aviso::ConfirmacaoRemota)
                } else {
                    Acao::Continuar
                }
            },
            Ok(EventoRemoto::Chat(conteudo)) => {
                if let Some(idle) = self.controle_idle {
                    let mut idle = idle;
                    idle.registrar_atividade(agora);
                    self.controle_idle = Some(idle);
                }
                Acao::Exibir(Aviso::ChatRecebido(conteudo))
            },
            Ok(EventoRemoto::Close { motivo, resposta }) => match resposta {
                Some(resposta) => {
                    self.pendente = Some(Pendente::RespostaClose { motivo });
                    Acao::Escrever { frame: resposta, prazo: agora + CLOSE_RESPONSE_TIMEOUT_MS }
                },
                None => {
                    self.sessao.concluir_close_recebido();
                    Acao::Encerrar {
                        resultado: if self.chegou_a_verified {
                            ResultadoInterativo::VerifiedAndClosed
                        } else {
                            ResultadoInterativo::AuthenticatedClose
                        },
                        aviso: Some(Aviso::CloseRecebido(motivo)),
                        desligar: true,
                    }
                },
            },
        }
    }

    /// Início de cada volta do laço: libera o chat ao chegar a `VERIFIED`,
    /// encerra sessão terminal, trata prazo esgotado ou diz quanto aguardar.
    pub fn preparar(&mut self, agora: u64) -> (acao: Acao)
        requires
            old(self).bem_formada(),
            old(self).escrita_pendente().is_none(),
            agora <= LIMITE_RELOGIO,
        ensures
            final(self).bem_formada(),
            MaquinaInterativa::mesmos_limites(*old(self), *final(self)),
            old(self).sessao_atual().cifra_disponivel() && old(self).sessao_atual()@.estado == EstadoSessao::Unverified && agora >= old(self).prazo_verificacao() ==> acao is Escrever,
            old(self).sessao_atual().cifra_disponivel() && old(self).sessao_atual()@.estado == EstadoSessao::Verified && old(self).verificada_alguma_vez() && (old(self).prazo_idle() matches Some(limite)
                && agora >= limite) ==> acao is Escrever,
            final(self).verificada_alguma_vez() == (old(self).verificada_alguma_vez() || acao is IniciarChat),
            !(acao is IniciarChat) ==> final(self).prazo_idle() == old(self).prazo_idle(),
            desfecho_honesto(acao, *final(self)),
            old(self).sessao_atual()@.estado == EstadoSessao::Verified && !old(self).verificada_alguma_vez()
                ==> acao is IniciarChat && final(self).verificada_alguma_vez()
                && final(self).prazo_idle() == Some(agora.saturating_add(old(self).duracao_idle()))
                && final(self).sessao_atual() == old(self).sessao_atual(),
            old(self).sessao_atual()@.terminal() ==> (acao matches Acao::Encerrar {
                resultado: ResultadoInterativo::ProtocolFailure,
                aviso: None,
                desligar: true,
            }) && final(self).sessao_atual() == old(self).sessao_atual(),
            old(self).sessao_atual()@.estado == EstadoSessao::Unverified && agora < old(self).prazo_verificacao()
                ==> acao == Acao::Aguardar((old(self).prazo_verificacao() - agora) as u64)
                && final(self).sessao_atual() == old(self).sessao_atual(),
            old(self).sessao_atual()@.estado == EstadoSessao::Unverified && agora >= old(self).prazo_verificacao()
                ==> ({
                ||| (acao matches Acao::Escrever { prazo, .. } && prazo == agora + CLOSE_RESPONSE_TIMEOUT_MS
                    && escreveu(acao, *old(self), *final(self), seq![CLOSE, byte_do_motivo(MotivoClose::VerificationAborted)])
                    && final(self).escrita_pendente() == Some(Pendente::TimeoutVerificacao)
                    && final(self).sessao_atual()@ == old(self).sessao_atual()@.apos_aborto(EstadoSessao::Closed))
                ||| (acao is Abortar && final(self).sessao_atual()@ == old(self).sessao_atual()@.falhar())
            }),
            old(self).sessao_atual()@.estado == EstadoSessao::Verified && old(self).verificada_alguma_vez()
                ==> (old(self).prazo_idle() matches Some(limite) && (agora < limite ==> acao == Acao::Aguardar(
                (limite - agora) as u64) && final(self).sessao_atual() == old(self).sessao_atual()) && (agora
                >= limite ==> {
                ||| (acao matches Acao::Escrever { prazo, .. } && prazo == agora + CLOSE_RESPONSE_TIMEOUT_MS
                    && escreveu(acao, *old(self), *final(self), seq![CLOSE, byte_do_motivo(MotivoClose::IdleTimeout)])
                    && final(self).escrita_pendente() == Some(Pendente::Idle { prazo })
                    && final(self).sessao_atual()@ == old(self).sessao_atual()@.apos_close_local())
                ||| (acao is Abortar && final(self).sessao_atual()@ == old(self).sessao_atual()@.falhar())
            })),
            old(self).sessao_atual()@.estado == EstadoSessao::Closing ==> (old(self).prazo_close() matches Some(
                prazo) && (agora < prazo ==> acao == Acao::Aguardar((prazo - agora) as u64)) && (agora >= prazo
                ==> (acao matches Acao::Encerrar {
                resultado: ResultadoInterativo::CloseTimeout,
                aviso: Some(Aviso::TimeoutClose),
                desligar: true,
            }) && final(self).sessao_atual()@ == old(self).sessao_atual()@.apos_timeout_close())),
            (acao is Aguardar || acao is IniciarChat) ==> final(self).escrita_pendente().is_none()
                && final(self).sessao_atual() == old(self).sessao_atual(),
    {
        if self.sessao.estado() == EstadoSessao::Verified && !self.entrada_chat_iniciada {
            self.chegou_a_verified = true;
            self.entrada_chat_iniciada = true;
            self.controle_idle = Some(ControleIdle::new(self.timeout_idle, agora));
            return Acao::IniciarChat;
        }
        let deadline = match self.sessao.estado() {
            EstadoSessao::Unverified => self.deadline_verificacao,
            EstadoSessao::Verified => match self.controle_idle {
                Some(idle) => idle.deadline(),
                None => self.deadline_verificacao,
            },
            EstadoSessao::Closing => match self.close_deadline {
                Some(prazo) => prazo,
                None => self.deadline_verificacao,
            },
            _ => {
                return Acao::Encerrar {
                    resultado: ResultadoInterativo::ProtocolFailure,
                    aviso: None,
                    desligar: true,
                };
            },
        };
        match crate::framing::tempo_restante(deadline, agora) {
            Ok(espera) => Acao::Aguardar(espera),
            Err(_) => self.tratar_timeout(agora),
        }
    }
}

} // verus!
