# supervisor_webui

A web front end for several supervisord servers. The request handling is a
Verus-verified library under `src/`; `app/` is the actix-web program around it.

- `src/request_params.rs`: the parameter shapes of an API request and their
  conversion into argument tuples.
- `src/api.rs`: the supervisor methods the API exposes, their names, and the
  call that a request plans.
- `src/servers.rs`: the registry of servers, keyed by the host of their URL.
- `src/routing.rs`: routing of an API request to a server URL and a call.
- `src/status.rs`: the state reported for a server in the overview.
- `src/log_request.rs`: the XML-RPC body of a log request.
- `src/tags.rs`: removal of markup tags from a log response.
- `app/`: HTTP handlers, embedded assets, and the XML-RPC calls.

Usage: `supervisor_webui PORT URLs...`, for example
`supervisor_webui 8080 "http://172.14.0.2:9000/RPC2"`.
