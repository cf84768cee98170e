# qnserver

A notification service that forwards task reports to QQ private chats, with its decisions
verified by Verus.

The service keeps a WebSocket session with the QQ gateway. Whoever writes the bot a private
message becomes the default recipient. Through an HTTP API a token holder sends text, Markdown
and uploaded files to that recipient, or to a user that the request names.

## Layout

- `src/` is the library: what the service decides and computes, each function with its contract.
  It reads no file, opens no connection and keeps no lock.
- `app/` is the program around it: it reads settings, listens, sends, stores files, and asks the
  library after each step what to do next.
- `tests/` runs the library on concrete values.

| Module | What it holds |
| --- | --- |
| `text` | trimming, comparing, decimal and hexadecimal |
| `json` | documents that arrive and documents that are sent |
| `digest` | checksums |
| `headers` | which header values show as text and which are accepted |
| `file_name` | file names taken out of paths |
| `media` | kinds of media, checksums of a file, names of temporary files |
| `state` | the token, the default recipient, the pieces of a text, refusals |
| `http_api` | what each HTTP request asks for and what it is answered |
| `qq_api` | addresses, documents and the access token of the QQ interface |
| `transfer` | the upload of a file, part by part |
| `gateway` | the session with the QQ gateway |
| `binding` | how a default recipient is stored, bound and told |
| `settings` | what the service is told at its start |

Four parts take turns with the program: `http_api::UploadForm` while a form is received,
`transfer::MediaTransfer` while a file is uploaded, `gateway::gateway_event` while a connection
lasts, and `binding::RecipientBinding` while a recipient is stored. Each takes what happened and
gives what is to be done.

## What is trusted

JSON text, checksums, header values and the comparison of checksums come from the `serde_json`,
`md-5`, `sha1`, `sha2`, `http` and `subtle` crates. The functions in `json`, `digest` and
`headers` that call them state what is believed of each call.

## Settings

| Variable | Required | Meaning |
| --- | --- | --- |
| `QQBOT_APP_ID` | yes | the bot's AppID |
| `QQBOT_APP_SECRET` | yes | the bot's AppSecret |
| `QQBOT_API_TOKEN` | yes | the bearer token of the HTTP API |
| `QQBOT_HTTP_HOST` | no | where to listen, `0.0.0.0` by default |
| `QQBOT_HTTP_PORT` | no | at which port, `8765` by default |
| `QQBOT_OPENID_FILE` | no | where the default recipient is stored, `data/recipient_openid` by default |
| `LOG_LEVEL` | no | `info` by default |
