//! Roteiro do handshake Noise XX por papel: exatamente três mensagens, com
//! payloads vazios, na ordem `-> e`, `<- e, ee, s, es`, `-> s, se`.

use vstd::prelude::*;
use crate::address::PapelNoise;
use crate::noise_lab::{
    CanalNoise, ErroNoise, EstadoHandshake, HANDSHAKE_BUFFER_SIZE, HANDSHAKE_HASH_SIZE,
    PROLOGUE, PROTOCOL_NAME, criar_initiator, criar_responder, finalizar_handshake,
};

verus! {

/// Prazo total do handshake, em milissegundos.
pub const HANDSHAKE_TIMEOUT_MS: u64 = 15000;

/// O que o papel local faz em seguida no handshake.
#[derive(Clone, Copy, Debug, PartialEq, Eq, Structural)]
pub enum PassoXX {
    Enviar,
    Receber,
    Concluido,
}

/// Depois de `n` mensagens processadas: o iniciador envia a primeira e a
/// terceira, o respondedor a segunda; depois da terceira não há mais nada.
pub open spec fn passo_xx(papel: PapelNoise, n: nat) -> PassoXX {
    if n >= 3 {
        PassoXX::Concluido
    } else if (papel == PapelNoise::Initiator) == (n % 2 == 0) {
        PassoXX::Enviar
    } else {
        PassoXX::Receber
    }
}

pub fn proximo_passo_xx(papel: PapelNoise, mensagens: usize) -> (passo: PassoXX)
    ensures
        passo == passo_xx(papel, mensagens as nat),
{
    if mensagens >= 3 {
        PassoXX::Concluido
    } else if (papel == PapelNoise::Initiator) == (mensagens % 2 == 0) {
        PassoXX::Enviar
    } else {
        PassoXX::Receber
    }
}

/// Em cada uma das três mensagens, exatamente um dos papéis envia e o outro
/// recebe; o iniciador envia a primeira; e o handshake termina exatamente
/// depois da terceira mensagem.
pub proof fn lei_xx_papeis_complementares(n: nat)
    ensures
        n < 3 ==> (passo_xx(PapelNoise::Initiator, n) == PassoXX::Enviar
            <==> passo_xx(PapelNoise::Responder, n) == PassoXX::Receber),
        n < 3 ==> (passo_xx(PapelNoise::Responder, n) == PassoXX::Enviar
            <==> passo_xx(PapelNoise::Initiator, n) == PassoXX::Receber),
        passo_xx(PapelNoise::Initiator, 0) == PassoXX::Enviar,
        passo_xx(PapelNoise::Responder, 0) == PassoXX::Receber,
        forall|p: PapelNoise| #[trigger] passo_xx(p, n) == PassoXX::Concluido <==> n >= 3,
{
}

/// Decide sobre o payload recuperado de uma mensagem do handshake: todos os
/// payloads do handshake devem ser vazios.
pub fn exigir_payload_vazio(tamanho: usize) -> (r: Result<(), ErroNoise>)
    ensures
        r is Ok <==> tamanho == 0,
        r is Err ==> r matches Err(ErroNoise::PayloadNaoVazio),
{
    if tamanho != 0 {
        return Err(ErroNoise::PayloadNaoVazio);
    }
    Ok(())
}

/// Handshake XX em andamento para um papel, conduzido mensagem a mensagem
/// por quem faz a entrada e saída dos frames.
pub struct HandshakeXX {
    papel: PapelNoise,
    estado: EstadoHandshake,
    mensagens: usize,
    payload_lengths: [usize; 3],
}

impl HandshakeXX {
    /// O contador acompanha o do Snow, que foi construído com o protocolo,
    /// o prologue e o papel fixos.
    pub closed spec fn bem_formado(&self) -> bool {
        &&& self.mensagens <= 3
        &&& self.mensagens as nat == self.estado.mensagens()
        &&& self.estado.protocolo() == PROTOCOL_NAME@
        &&& self.estado.prologo() == Some(PROLOGUE@)
        &&& self.estado.e_initiator() == (self.papel == PapelNoise::Initiator)
    }

    pub closed spec fn papel_local(&self) -> PapelNoise {
        self.papel
    }

    /// Quantas mensagens do handshake já foram escritas ou lidas.
    pub closed spec fn mensagens_processadas(&self) -> nat {
        self.mensagens as nat
    }

    pub closed spec fn tamanhos_payload(&self) -> Seq<usize> {
        self.payload_lengths@
    }

    /// Nome do protocolo com que o estado do Snow foi construído.
    pub closed spec fn protocolo(&self) -> Seq<char> {
        self.estado.protocolo()
    }

    /// Prologue com que o estado do Snow foi construído.
    pub closed spec fn prologo(&self) -> Option<Seq<u8>> {
        self.estado.prologo()
    }

    /// Se o estado do Snow foi construído como iniciador.
    pub closed spec fn constroi_initiator(&self) -> bool {
        self.estado.e_initiator()
    }

    /// Payloads entregues ao Snow nas mensagens escritas.
    pub closed spec fn payloads_enviados(&self) -> Seq<Seq<u8>> {
        self.estado.payloads_escritos()
    }

    /// Tamanhos dos payloads recuperados nas mensagens lidas.
    pub closed spec fn payloads_recebidos(&self) -> Seq<nat> {
        self.estado.payloads_lidos()
    }

    /// Bytes das mensagens escritas pelo Snow, em ordem.
    pub closed spec fn mensagens_enviadas(&self) -> Seq<Seq<u8>> {
        self.estado.mensagens_escritas()
    }

    /// Mensagens entregues ao Snow para ler, em ordem.
    pub closed spec fn mensagens_recebidas(&self) -> Seq<Seq<u8>> {
        self.estado.mensagens_lidas()
    }

    /// O hash corrente do handshake segundo o Snow.
    pub closed spec fn hash_snow(&self) -> Seq<u8> {
        self.estado.hash_snow()
    }

    /// Novo handshake com chaves frescas para o papel dado.
    pub fn novo(papel: PapelNoise) -> (r: Result<HandshakeXX, ErroNoise>)
        ensures
            r matches Ok(h) ==> h.papel_local() == papel && h.mensagens_processadas() == 0
                && h.tamanhos_payload() == seq![0usize, 0usize, 0usize] && h.protocolo() == PROTOCOL_NAME@
                && h.prologo() == Some(PROLOGUE@) && h.constroi_initiator() == (papel == PapelNoise::Initiator)
                && h.payloads_enviados() == Seq::<Seq<u8>>::empty() && h.payloads_recebidos() == Seq::<nat>::empty()
                && h.mensagens_enviadas() == Seq::<Seq<u8>>::empty()
                && h.mensagens_recebidas() == Seq::<Seq<u8>>::empty() && h.bem_formado(),
            r matches Err(e) ==> e is Snow,
    {
        let estado = match papel {
            PapelNoise::Initiator => criar_initiator(),
            PapelNoise::Responder => criar_responder(),
        };
        match estado {
            Ok(estado) => {
                let h = HandshakeXX { papel, estado, mensagens: 0, payload_lengths: [0, 0, 0] };
                assert(h.payload_lengths@ =~= seq![0usize, 0usize, 0usize]);
                Ok(h)
            },
            Err(e) => Err(e),
        }
    }

    pub fn passo(&self) -> (passo: PassoXX)
        ensures
            passo == passo_xx(self.papel_local(), self.mensagens_processadas()),
    {
        proximo_passo_xx(self.papel, self.mensagens)
    }

    /// Escreve a próxima mensagem, com payload vazio, se for a vez do papel
    /// local enviar; caso contrário falha com `ForaDeOrdem` sem efeito. Uma
    /// falha do Snow não avança o handshake.
    pub fn escrever_proxima(&mut self) -> (r: Result<Vec<u8>, ErroNoise>)
        requires
            old(self).bem_formado(),
        ensures
            final(self).bem_formado(),
            final(self).papel_local() == old(self).papel_local(),
            final(self).protocolo() == old(self).protocolo(),
            final(self).prologo() == old(self).prologo(),
            final(self).constroi_initiator() == old(self).constroi_initiator(),
            final(self).tamanhos_payload() == old(self).tamanhos_payload(),
            final(self).payloads_recebidos() == old(self).payloads_recebidos(),
            final(self).mensagens_recebidas() == old(self).mensagens_recebidas(),
            r is Err ==> final(self).mensagens_enviadas() == old(self).mensagens_enviadas(),
            r matches Ok(mensagem) ==> final(self).mensagens_enviadas() == old(self).mensagens_enviadas().push(
                mensagem@),
            passo_xx(old(self).papel_local(), old(self).mensagens_processadas()) != PassoXX::Enviar
                ==> (r matches Err(ErroNoise::ForaDeOrdem)) && final(self).mensagens_processadas()
                == old(self).mensagens_processadas() && final(self).payloads_enviados()
                == old(self).payloads_enviados(),
            passo_xx(old(self).papel_local(), old(self).mensagens_processadas()) == PassoXX::Enviar
                ==> !(r matches Err(ErroNoise::ForaDeOrdem)),
            r matches Err(e) ==> e is ForaDeOrdem || e is Snow,
            r is Err ==> final(self).mensagens_processadas() == old(self).mensagens_processadas()
                && final(self).payloads_enviados() == old(self).payloads_enviados(),
            r matches Ok(mensagem) ==> passo_xx(old(self).papel_local(), old(self).mensagens_processadas())
                == PassoXX::Enviar && final(self).mensagens_processadas()
                == old(self).mensagens_processadas() + 1 && mensagem@.len() <= HANDSHAKE_BUFFER_SIZE
                && final(self).payloads_enviados() == old(self).payloads_enviados().push(Seq::<u8>::empty()),
    {
        if proximo_passo_xx(self.papel, self.mensagens) != PassoXX::Enviar {
            return Err(ErroNoise::ForaDeOrdem);
        }
        let mut mensagem: Vec<u8> = vec![0u8; HANDSHAKE_BUFFER_SIZE];
        let vazio: [u8; 0] = [];
        assert(vazio@ =~= Seq::<u8>::empty());
        let tamanho = match self.estado.escrever_mensagem(&vazio, &mut mensagem) {
            Ok(n) => n,
            Err(e) => return Err(ErroNoise::Snow(e)),
        };
        let ghost escrita = mensagem@;
        mensagem.truncate(tamanho);
        assert(mensagem@ =~= escrita.subrange(0, tamanho as int));
        self.mensagens = self.mensagens + 1;
        Ok(mensagem)
    }

    /// Lê a próxima mensagem se for a vez do papel local receber; fora da
    /// vez falha com `ForaDeOrdem` sem efeito. Uma falha do Snow não avança o
    /// handshake; uma mensagem aceita pelo Snow avança e tem o tamanho do
    /// payload registrado, e falha com `PayloadNaoVazio` se ele não for zero.
    pub fn ler_proxima(&mut self, frame: &[u8]) -> (r: Result<(), ErroNoise>)
        requires
            old(self).bem_formado(),
        ensures
            final(self).bem_formado(),
            final(self).papel_local() == old(self).papel_local(),
            final(self).protocolo() == old(self).protocolo(),
            final(self).prologo() == old(self).prologo(),
            final(self).constroi_initiator() == old(self).constroi_initiator(),
            final(self).payloads_enviados() == old(self).payloads_enviados(),
            final(self).mensagens_enviadas() == old(self).mensagens_enviadas(),
            passo_xx(old(self).papel_local(), old(self).mensagens_processadas()) != PassoXX::Receber
                ==> final(self).mensagens_recebidas() == old(self).mensagens_recebidas(),
            passo_xx(old(self).papel_local(), old(self).mensagens_processadas()) == PassoXX::Receber
                ==> final(self).mensagens_recebidas() == old(self).mensagens_recebidas().push(frame@),
            passo_xx(old(self).papel_local(), old(self).mensagens_processadas()) != PassoXX::Receber
                ==> (r matches Err(ErroNoise::ForaDeOrdem)) && final(self).mensagens_processadas()
                == old(self).mensagens_processadas() && final(self).tamanhos_payload()
                == old(self).tamanhos_payload() && final(self).payloads_recebidos() == old(self).payloads_recebidos(),
            passo_xx(old(self).papel_local(), old(self).mensagens_processadas()) == PassoXX::Receber ==> {
                ||| {
                    &&& r matches Err(ErroNoise::Snow(_))
                    &&& final(self).mensagens_processadas() == old(self).mensagens_processadas()
                    &&& final(self).tamanhos_payload() == old(self).tamanhos_payload()
                    &&& final(self).payloads_recebidos() == old(self).payloads_recebidos()
                }
                ||| {
                    &&& final(self).mensagens_processadas() == old(self).mensagens_processadas() + 1
                    &&& final(self).payloads_recebidos() == old(self).payloads_recebidos().push(
                        final(self).payloads_recebidos().last(),
                    )
                    &&& final(self).tamanhos_payload() == old(self).tamanhos_payload().update(
                        old(self).mensagens_processadas() as int,
                        final(self).payloads_recebidos().last() as usize,
                    )
                    &&& final(self).payloads_recebidos().last() <= usize::MAX
                    &&& (r is Ok <==> final(self).payloads_recebidos().last() == 0)
                    &&& r is Err ==> r matches Err(ErroNoise::PayloadNaoVazio)
                }
            },
    {
        if proximo_passo_xx(self.papel, self.mensagens) != PassoXX::Receber {
            return Err(ErroNoise::ForaDeOrdem);
        }
        let mut payload: Vec<u8> = vec![0u8; HANDSHAKE_BUFFER_SIZE];
        let tamanho = match self.estado.ler_mensagem(frame, &mut payload) {
            Ok(n) => n,
            Err(e) => return Err(ErroNoise::Snow(e)),
        };
        self.payload_lengths[self.mensagens] = tamanho;
        self.mensagens = self.mensagens + 1;
        exigir_payload_vazio(tamanho)
    }

    /// Depois da terceira mensagem, passa ao canal de transporte com o
    /// channel binding copiado; antes disso falha com `ForaDeOrdem`.
    pub fn concluir(self) -> (r: Result<CanalNoise, ErroNoise>)
        requires
            self.bem_formado(),
        ensures
            passo_xx(self.papel_local(), self.mensagens_processadas()) != PassoXX::Concluido
                ==> r matches Err(ErroNoise::ForaDeOrdem),
            passo_xx(self.papel_local(), self.mensagens_processadas()) == PassoXX::Concluido ==> r is Ok,
            r matches Ok(canal) ==> canal.tamanhos_payload() == self.tamanhos_payload()
                && canal.hash_sessao() == self.hash_snow()
                && canal.hash_sessao().len() == HANDSHAKE_HASH_SIZE && canal.protocolo() == PROTOCOL_NAME@
                && canal.nonce_envio() == 0 && canal.sem_trafego(),
    {
        if proximo_passo_xx(self.papel, self.mensagens) != PassoXX::Concluido {
            return Err(ErroNoise::ForaDeOrdem);
        }
        finalizar_handshake(self.estado, self.payload_lengths)
    }
}

} // verus!
