# garage_backup_sensor

Firmware for a garage backup sensor on the Acconeer A121 radar.

- `src/` is the verified library: the distance-detector presets and the
  configuration they write (`a121::detector_distance`), the detector's buffer
  sizes and zeroed buffers, the HAL record handed to the radar system software
  (`a121::rss`), and the size header the allocator hooks put in front of each
  block (`heap_header`). The detector's floating-point settings are kept in
  millimetres and thousandths.
- `app/` is the firmware around it: the declarations of the radar software's C
  API, the calls into it, the allocator hooks, and the embassy main loop.
- `tests/` exercises the library on concrete values.
