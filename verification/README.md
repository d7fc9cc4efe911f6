# sst_index

Decides how the indexes of SST files are built in a storage engine, and proves with Verus that it
decides as it should. The engine does the work: it opens files, makes index creators, sends
requests. The library tells it what to do next and takes the answer.

* `backend`: the kinds of handle that an engine hands in.
* `config`: settings that enable indexes and limit what they take.
* `file`, `output`: files, and what the creation of their indexes brought about.
* `indexer`: the creators of one file, and the memory gauge that follows them.
* `builder`: which creators a file gets.
* `task`: building the index of one file, batch by batch, up to the edit of its region.
* `scheduler`, `worker`: which files of a region are built on request, and handing them over.
* `plugins`: hooks for the plugins of a datanode.

Public proof functions named `law_*` state what holds across several of these. `app/` runs the
decisions on an asynchronous runtime.
