# securechat

Chat de terminal entre duas pessoas sobre TCP, com handshake
`Noise_XX_25519_ChaChaPoly_SHA256` (via `snow`) e verificação humana do
fingerprint do handshake antes de qualquer mensagem de chat.

- `src/` — biblioteca verificada com Verus:
  - `address.rs`: modos de execução, papéis Noise, validação de endereços
    locais e mensagens públicas de erro de rede;
  - `framing.rs`: prefixo `u32` big-endian de 1 a 8192 bytes e prazos;
  - `noise_lab.rs`: construção dos estados Noise, fingerprint canônico e canal
    de transporte;
  - `tcp_handshake.rs`: roteiro XX de três mensagens por papel;
  - `verification.rs`: máquina de estados de verificação, chat e `CLOSE`
    autenticado, e as decisões do laço interativo.
- `app/` — programa de linha de comando: sockets, threads, terminal e relógio.
- `tests/` — testes de unidade e de integração em memória.
