# hmq_tui

A terminal user interface for the REST API of a HiveMQ broker, written as a Verus
library with a thin binary around it.

`src/` is the verified library:

- `keys`, `action`, `styles`, `config`: reading key presses, actions, styles and the key
  bindings of the configuration, and the key hints shown for them;
- `list_with_details`, `editor`, `filter_popup`, `popup`: the list of items with their details,
  its editors and popups, and what each area of the screen shows;
- `tabs`, `home`: the tabs of the home screen and the service calls they ask for;
- `views`: what a plain details view and the clients view show;
- `repository`, `services`, `hivemq_rest_client`, `openapi`: the SQLite store of the items,
  the paging of the REST API and the reporting of its errors.

`app/` holds the binary: command line, terminal, drawing, the configuration file and the
HTTP requests. `tests/` exercises the library.
